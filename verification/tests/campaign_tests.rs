//! Campaign creation, result paging and the campaign route tables.

use survey::bench::{Bench, SubmissionType};
use survey::campaigns::{
    get_results_page, AddCapmaign, ListCampaignResp, ResultsPage, SurveyResponse, SurveyUser,
};
use survey::errors::ServiceError;
use survey::pages::{
    delete_campaign_title, Campaigns, ExportListCampaign, FormAddCampaign, ResultsPagePayload,
    TemplateCampaign,
};

fn response(id: usize, kind: SubmissionType) -> SurveyResponse {
    SurveyResponse {
        user: SurveyUser { created_at: 11, id: "user-uuid".to_string() },
        device_user_provided: "foo".to_string(),
        device_software_recognised: "Foobar.v2".to_string(),
        id,
        threads: Some(4),
        submitted_at: 1_600_000_000,
        submission_type: kind,
        benches: vec![Bench { duration: "1.5".to_string(), difficulty: 1 }],
    }
}

#[test]
fn sorted_difficulties_invariant() {
    let mut payload = AddCapmaign {
        name: "spring run".to_string(),
        difficulties: vec![500, 1, 250, 1, -3],
    };
    payload.sort_difficulties();
    assert_eq!(payload.difficulties, vec![-3, 1, 1, 250, 500]);
    assert_eq!(payload.name, "spring run");
}

#[test]
fn sorting_sorted_input_keeps_it() {
    let mut payload = AddCapmaign { name: "x".to_string(), difficulties: vec![1, 2, 3, 4, 5] };
    payload.sort_difficulties();
    assert_eq!(payload.difficulties, vec![1, 2, 3, 4, 5]);
}

#[test]
fn form_parse_accepts_numbers() {
    let form = FormAddCampaign {
        name: "c".to_string(),
        difficulties: "5,1,-3,+2".to_string(),
    };
    let parsed = form.parse().unwrap();
    assert_eq!(parsed.name, "c");
    assert_eq!(parsed.difficulties, vec![5, 1, -3, 2]);
}

#[test]
fn form_parse_rejects_bad_pieces() {
    let bad = FormAddCampaign { name: "c".to_string(), difficulties: "1,x,3".to_string() };
    assert_eq!(bad.parse().unwrap_err(), ServiceError::NotANumber);
    let empty = FormAddCampaign { name: "c".to_string(), difficulties: "".to_string() };
    assert_eq!(empty.parse().unwrap_err(), ServiceError::NotANumber);
    let trailing = FormAddCampaign { name: "c".to_string(), difficulties: "1,2,".to_string() };
    assert_eq!(trailing.parse().unwrap_err(), ServiceError::NotANumber);
    let too_big = FormAddCampaign {
        name: "c".to_string(),
        difficulties: "2147483648".to_string(),
    };
    assert_eq!(too_big.parse().unwrap_err(), ServiceError::NotANumber);
}

#[test]
fn results_filter_and_pages() {
    let all = vec![
        response(1, SubmissionType::Wasm),
        response(2, SubmissionType::Js),
        response(3, SubmissionType::Wasm),
        response(4, SubmissionType::Wasm),
    ];
    let wasm = get_results_page(all.clone(), 0, 50, &Some(SubmissionType::Wasm));
    assert_eq!(wasm.iter().map(|r| r.id).collect::<Vec<_>>(), vec![1, 3, 4]);

    let js = get_results_page(all.clone(), 0, 50, &Some(SubmissionType::Js));
    assert_eq!(js.iter().map(|r| r.id).collect::<Vec<_>>(), vec![2]);

    let unfiltered = get_results_page(all.clone(), 0, 50, &None);
    assert_eq!(unfiltered.len(), 4);

    let page0 = get_results_page(all.clone(), 0, 2, &None);
    assert_eq!(page0.iter().map(|r| r.id).collect::<Vec<_>>(), vec![1, 2]);
    let page1 = get_results_page(all.clone(), 1, 2, &None);
    assert_eq!(page1.iter().map(|r| r.id).collect::<Vec<_>>(), vec![3, 4]);
    let page2 = get_results_page(all.clone(), 2, 2, &None);
    assert_eq!(page2.len(), 0);
}

#[test]
fn results_page_defaults() {
    let q = ResultsPage::new(None, None);
    assert_eq!(q.page(), 0);
    let q = ResultsPage::new(Some(3), None);
    assert_eq!(q.page(), 3);
}

#[test]
fn api_campaign_routes() {
    let routes = survey::campaigns::Campaign::new();
    assert_eq!(routes.add, "/admin/api/v1/campaign/add");
    assert_eq!(routes.get_delete_route("42"), "/admin/api/v1/campaign/42/delete");
    assert_eq!(routes.get_results_route("42", None), "/admin/api/v1/campaign/42/results");
    let modifier = ResultsPage::new(Some(2), Some(SubmissionType::Wasm));
    assert_eq!(
        routes.get_results_route("42", Some(&modifier)),
        "/admin/api/v1/campaign/42/results?page=2&bench_type=wasm"
    );
    let only_type = ResultsPage::new(None, Some(SubmissionType::Js));
    assert_eq!(
        routes.get_results_route("42", Some(&only_type)),
        "/admin/api/v1/campaign/42/results?bench_type=js"
    );
}

#[test]
fn panel_campaign_routes() {
    let pages = Campaigns::new();
    assert_eq!(pages.home, "/admin/campaigns");
    assert_eq!(pages.get_about_route("42"), "/survey/campaigns/42/about");
    assert_eq!(pages.get_bench_route("42"), "/survey/campaigns/42/bench");
    assert_eq!(pages.get_delete_route("42"), "/admin/campaigns/42/delete");
    // a zero page rides along only as a filter
    let zero_page = ResultsPage::new(Some(0), Some(SubmissionType::Wasm));
    assert_eq!(
        pages.get_results_route("42", Some(&zero_page)),
        "/admin/campaigns/42/results?bench_type=wasm"
    );
    let with_page = ResultsPage::new(Some(1), Some(SubmissionType::Js));
    assert_eq!(
        pages.get_results_route("42", Some(&with_page)),
        "/admin/campaigns/42/results?page=1&bench_type=js"
    );
}

#[test]
fn listing_conversions() {
    let entry = ListCampaignResp { name: "c1".to_string(), uuid: "u-1".to_string() };
    let t = TemplateCampaign::from_list(entry);
    assert_eq!(t.name, "c1");
    assert_eq!(t.uuid, "u-1");
    assert_eq!(t.route, "/survey/campaigns/u-1/about");
    assert_eq!(t.results, "/admin/campaigns/u-1/results");

    let entry = ListCampaignResp { name: "c2".to_string(), uuid: "u-2".to_string() };
    let e = ExportListCampaign::from_list(entry);
    assert_eq!(e.route, "/survey/campaigns/u-2/bench");
    assert_eq!(e.export_link, "/download/u-2");
}

#[test]
fn delete_title_quotes_the_name() {
    assert_eq!(delete_campaign_title("spring"), "Delete camapign \"spring\"?");
}

#[test]
fn results_payload_links() {
    let submissions: Vec<SurveyResponse> =
        (0..10).map(|i| response(i, SubmissionType::Wasm)).collect();
    let modifier = ResultsPage::new(None, Some(SubmissionType::Wasm));
    let payload = ResultsPagePayload::new(submissions, "u-9", modifier);
    assert_eq!(payload.all_benches.as_deref(), Some("/admin/campaigns/u-9/results"));
    assert_eq!(
        payload.js_only.as_deref(),
        Some("/admin/campaigns/u-9/results?bench_type=js")
    );
    assert!(payload.wasm_only.is_none());
    // ten submissions fill the page, so a next page is offered
    assert_eq!(
        payload.next_page.as_deref(),
        Some("/admin/campaigns/u-9/results?page=1&bench_type=wasm")
    );

    let short: Vec<SurveyResponse> = (0..3).map(|i| response(i, SubmissionType::Js)).collect();
    let payload = ResultsPagePayload::new(short, "u-9", ResultsPage::new(None, None));
    assert!(payload.next_page.is_none());
    assert!(payload.all_benches.is_none());
    assert_eq!(
        payload.wasm_only.as_deref(),
        Some("/admin/campaigns/u-9/results?bench_type=wasm")
    );
    assert_eq!(
        payload.js_only.as_deref(),
        Some("/admin/campaigns/u-9/results?bench_type=js")
    );
}
