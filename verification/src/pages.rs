//! Server-rendered panel pages: their route table and the payloads the
//! templates are filled with.  Everything here is route and payload
//! computation on plain values; rendering itself happens outside.

use vstd::prelude::*;

use crate::bench::{spec_submission_type_name, SubmissionType};
use crate::campaigns::{
    spec_results_page, AddCapmaign, ListCampaignResp, ResultsPage, SurveyResponse,
};
use crate::errors::{ServiceError, ServiceResult};
use crate::text::{
    parse_i32, replace_first, spec_dec, spec_int_numeral, spec_int_val, spec_replace_first,
    spec_split_commas, split_commas, usize_to_string,
};

verus! {

/// How many submissions one results page shows.
pub const RESUTS_LIMIT: usize = 10;

/// Path under which archive snapshots are served for download.
pub const DOWNLOAD_SCOPE: &'static str = "/download";

/// Route table of the panel's campaign pages.
pub struct Campaigns {
    pub home: &'static str,
    pub new: &'static str,
    pub about: &'static str,
    pub bench: &'static str,
    pub delete: &'static str,
    pub results: &'static str,
}

/// The query-string suffix of a panel results route: `?page={p}` only
/// for a non-zero page, then the filter with `?` or `&` accordingly.
pub open spec fn spec_pages_results_suffix(m: ResultsPage) -> Seq<char> {
    let p = spec_results_page(m.page);
    (if p != 0 {
        "?page="@ + spec_dec(p)
    } else {
        Seq::<char>::empty()
    }) + (match m.bench_type {
        Option::Some(t) => (if p != 0 {
            "&bench_type="@
        } else {
            "?bench_type="@
        }) + spec_submission_type_name(t),
        Option::None => Seq::<char>::empty(),
    })
}

/// A panel results route for one campaign with an optional modifier.
pub open spec fn spec_pages_results_route(campaign_id: Seq<char>, m: Option<ResultsPage>) -> Seq<
    char,
> {
    spec_replace_first("/admin/campaigns/{uuid}/results"@, "{uuid}"@, campaign_id) + (match m {
        Option::Some(m) => spec_pages_results_suffix(m),
        Option::None => Seq::<char>::empty(),
    })
}

impl Campaigns {
    /// The fixed panel campaign routes.
    pub fn new() -> (r: Campaigns)
        ensures
            r.home@ == "/admin/campaigns"@,
            r.new@ == "/admin/campaigns/new"@,
            r.about@ == "/survey/campaigns/{uuid}/about"@,
            r.bench@ == "/survey/campaigns/{uuid}/bench"@,
            r.delete@ == "/admin/campaigns/{uuid}/delete"@,
            r.results@ == "/admin/campaigns/{uuid}/results"@,
    {
        Campaigns {
            home: "/admin/campaigns",
            new: "/admin/campaigns/new",
            about: "/survey/campaigns/{uuid}/about",
            bench: "/survey/campaigns/{uuid}/bench",
            delete: "/admin/campaigns/{uuid}/delete",
            results: "/admin/campaigns/{uuid}/results",
        }
    }

    /// The delete page of one campaign.
    pub fn get_delete_route(&self, campaign_id: &str) -> (r: String)
        ensures
            r@ == spec_replace_first(self.delete@, "{uuid}"@, campaign_id@),
    {
        replace_first(self.delete, "{uuid}", campaign_id)
    }

    /// The benchmark page of one campaign.
    pub fn get_bench_route(&self, campaign_id: &str) -> (r: String)
        ensures
            r@ == spec_replace_first(self.bench@, "{uuid}"@, campaign_id@),
    {
        replace_first(self.bench, "{uuid}", campaign_id)
    }

    /// The about page of one campaign.
    pub fn get_about_route(&self, campaign_id: &str) -> (r: String)
        ensures
            r@ == spec_replace_first(self.about@, "{uuid}"@, campaign_id@),
    {
        replace_first(self.about, "{uuid}", campaign_id)
    }

    /// The results page of one campaign; a non-zero page and a filter
    /// ride along as query parameters.
    pub fn get_results_route(&self, campaign_id: &str, modifier: Option<&ResultsPage>) -> (r:
        String)
        ensures
            r@ == spec_replace_first(self.results@, "{uuid}"@, campaign_id@) + (match modifier {
                Option::Some(m) => spec_pages_results_suffix(*m),
                Option::None => Seq::<char>::empty(),
            }),
    {
        let mut res = replace_first(self.results, "{uuid}", campaign_id);
        if let Some(m) = modifier {
            let page = m.page();
            if page != 0 {
                res.append("?page=");
                let digits = usize_to_string(page);
                res.append(digits.as_str());
            }
            if let Some(bench_type) = &m.bench_type {
                if page != 0 {
                    res.append("&bench_type=");
                } else {
                    res.append("?bench_type=");
                }
                let name = bench_type.to_string();
                res.append(name.as_str());
            }
        }
        res
    }
}

/// A campaign as the panel's listing template shows it: its name and
/// identifier with its about and results routes.
pub struct TemplateCampaign {
    pub name: String,
    pub uuid: String,
    pub route: String,
    pub results: String,
}

impl TemplateCampaign {
    /// Builds the template entry for one listed campaign.
    pub fn from_list(c: ListCampaignResp) -> (r: TemplateCampaign)
        ensures
            r.name@ == c.name@,
            r.uuid@ == c.uuid@,
            r.route@ == spec_replace_first("/survey/campaigns/{uuid}/about"@, "{uuid}"@, c.uuid@),
            r.results@ == spec_pages_results_route(c.uuid@, Option::None),
    {
        let pages = Campaigns::new();
        let route = pages.get_about_route(c.uuid.as_str());
        let results = pages.get_results_route(c.uuid.as_str(), None);
        TemplateCampaign { route, name: c.name, uuid: c.uuid, results }
    }
}

/// A campaign as the export page lists it: with its download link and
/// its benchmark route.
pub struct ExportListCampaign {
    pub uuid: String,
    pub name: String,
    pub export_link: String,
    pub route: String,
}

impl ExportListCampaign {
    /// Builds the export-page entry for one listed campaign.
    pub fn from_list(c: ListCampaignResp) -> (r: ExportListCampaign)
        ensures
            r.name@ == c.name@,
            r.uuid@ == c.uuid@,
            r.route@ == spec_replace_first("/survey/campaigns/{uuid}/bench"@, "{uuid}"@, c.uuid@),
            r.export_link@ == "/download"@ + "/"@ + c.uuid@,
    {
        let pages = Campaigns::new();
        let route = pages.get_bench_route(c.uuid.as_str());
        let mut export_link = String::new();
        export_link.append(DOWNLOAD_SCOPE);
        export_link.append("/");
        export_link.append(c.uuid.as_str());
        ExportListCampaign { route, export_link, name: c.name, uuid: c.uuid }
    }
}

/// The export page's payload: every campaign with its download link.
pub struct ExportPagePayload {
    pub campaigns: Vec<ExportListCampaign>,
}

/// The delete confirmation page's payload: a title naming the campaign
/// and the route its form posts to.
pub struct CampaignDeletePayload {
    pub title: String,
    pub delete_url: String,
}

/// The delete confirmation title for a campaign name.
pub fn delete_campaign_title(name: &str) -> (r: String)
    ensures
        r@ == "Delete camapign \""@ + name@ + "\"?"@,
{
    let mut out = String::new();
    out.append("Delete camapign \"");
    out.append(name);
    out.append("\"?");
    out
}

/// The new-campaign form as posted: a name and the difficulties as one
/// comma-separated text field.
pub struct FormAddCampaign {
    pub name: String,
    pub difficulties: String,
}

impl FormAddCampaign {
    /// Parses the form into a creation request: every comma-separated
    /// piece must be a decimal difficulty.  `Err` exactly when some
    /// piece is no in-range numeral.
    pub fn parse(self) -> (r: ServiceResult<AddCapmaign>)
        ensures
            ({
                let pieces = spec_split_commas(self.difficulties@);
                match r {
                    Ok(a) => a.name@ == self.name@ && a.difficulties@.len() == pieces.len()
                        && forall|j: int|
                        0 <= j < pieces.len() ==> spec_int_numeral(#[trigger] pieces[j])
                            && i32::MIN <= spec_int_val(pieces[j]) <= i32::MAX
                            && a.difficulties@[j] == spec_int_val(pieces[j]),
                    Err(e) => e == ServiceError::NotANumber && exists|j: int|
                        0 <= j < pieces.len() && !(spec_int_numeral(#[trigger] pieces[j])
                            && i32::MIN <= spec_int_val(pieces[j]) <= i32::MAX),
                }
            }),
    {
        let ghost pieces_spec = spec_split_commas(self.difficulties@);
        let pieces = split_commas(self.difficulties.as_str());
        let mut difficulties: Vec<i32> = Vec::new();
        let n = pieces.len();
        let mut i: usize = 0;
        while i < n
            invariant
                0 <= i <= n,
                n == pieces@.len(),
                pieces_spec == spec_split_commas(self.difficulties@),
                pieces@.map_values(|p: String| p@) == pieces_spec,
                difficulties@.len() == i,
                forall|j: int|
                    0 <= j < i ==> spec_int_numeral(#[trigger] pieces_spec[j]) && i32::MIN
                        <= spec_int_val(pieces_spec[j]) <= i32::MAX && difficulties@[j]
                        == spec_int_val(pieces_spec[j]),
            decreases n - i,
        {
            proof {
                assert(pieces@.map_values(|p: String| p@)[i as int] == pieces@[i as int]@);
            }
            let d = match parse_i32(pieces[i].as_str()) {
                Some(d) => d,
                None => {
                    proof {
                        let bad = spec_split_commas(self.difficulties@)[i as int];
                        assert(bad == pieces_spec[i as int]);
                        assert(exists|j: int|
                            0 <= j < spec_split_commas(self.difficulties@).len() && !(
                            spec_int_numeral(
                                #[trigger] spec_split_commas(self.difficulties@)[j],
                            ) && i32::MIN <= spec_int_val(
                                spec_split_commas(self.difficulties@)[j],
                            ) <= i32::MAX)) by {
                            assert(!(spec_int_numeral(
                                spec_split_commas(self.difficulties@)[i as int],
                            ) && i32::MIN <= spec_int_val(
                                spec_split_commas(self.difficulties@)[i as int],
                            ) <= i32::MAX));
                        };
                    }
                    return Err(ServiceError::NotANumber);
                },
            };
            difficulties.push(d);
            i += 1;
        }
        Ok(AddCapmaign { name: self.name, difficulties })
    }
}

/// One results page as the template shows it: the submissions, the
/// link to the next page when this one is full, and the filter links
/// that are not currently active.
pub struct ResultsPagePayload {
    pub next_page: Option<String>,
    pub submissions: Vec<SurveyResponse>,
    pub wasm_only: Option<String>,
    pub js_only: Option<String>,
    pub all_benches: Option<String>,
}

impl ResultsPagePayload {
    /// Builds the results-page payload: the filter links complement
    /// the active filter, and a full page links to the next one with
    /// the same filter.
    pub fn new(submissions: Vec<SurveyResponse>, campaign_id: &str, modifier: ResultsPage) -> (r:
        Self)
        requires
            spec_results_page(modifier.page) < usize::MAX,
        ensures
            r.submissions@ == submissions@,
            (match modifier.bench_type {
                Option::Some(SubmissionType::Js) => (r.all_benches matches Option::Some(a) && a@
                    == spec_pages_results_route(campaign_id@, Option::None)) && (
                r.wasm_only matches Option::Some(w) && w@ == spec_pages_results_route(
                    campaign_id@,
                    Option::Some(
                        ResultsPage {
                            page: Option::None,
                            bench_type: Option::Some(SubmissionType::Wasm),
                        },
                    ),
                )) && r.js_only matches Option::None,
                Option::Some(SubmissionType::Wasm) => (r.all_benches matches Option::Some(a) && a@
                    == spec_pages_results_route(campaign_id@, Option::None)) && (
                r.js_only matches Option::Some(w) && w@ == spec_pages_results_route(
                    campaign_id@,
                    Option::Some(
                        ResultsPage {
                            page: Option::None,
                            bench_type: Option::Some(SubmissionType::Js),
                        },
                    ),
                )) && r.wasm_only matches Option::None,
                Option::None => (r.all_benches matches Option::None) && (
                r.js_only matches Option::Some(j) && j@ == spec_pages_results_route(
                    campaign_id@,
                    Option::Some(
                        ResultsPage {
                            page: Option::None,
                            bench_type: Option::Some(SubmissionType::Js),
                        },
                    ),
                )) && (r.wasm_only matches Option::Some(w) && w@ == spec_pages_results_route(
                    campaign_id@,
                    Option::Some(
                        ResultsPage {
                            page: Option::None,
                            bench_type: Option::Some(SubmissionType::Wasm),
                        },
                    ),
                )),
            }),
            submissions@.len() == RESUTS_LIMIT as int ==> (r.next_page matches Option::Some(u)
                && u@ == spec_pages_results_route(
                campaign_id@,
                Option::Some(
                    ResultsPage {
                        page: Option::Some((spec_results_page(modifier.page) + 1) as usize),
                        bench_type: modifier.bench_type,
                    },
                ),
            )),
            submissions@.len() != RESUTS_LIMIT as int ==> r.next_page matches Option::None,
    {
        let pages = Campaigns::new();
        let all_benches: Option<String>;
        let wasm_only: Option<String>;
        let js_only: Option<String>;
        match modifier.bench_type {
            Option::Some(SubmissionType::Js) => {
                all_benches = Some(pages.get_results_route(campaign_id, None));
                let wasm_modifier = ResultsPage::new(None, Some(SubmissionType::Wasm));
                wasm_only = Some(pages.get_results_route(campaign_id, Some(&wasm_modifier)));
                js_only = None;
            },
            Option::Some(SubmissionType::Wasm) => {
                all_benches = Some(pages.get_results_route(campaign_id, None));
                let js_modifier = ResultsPage::new(None, Some(SubmissionType::Js));
                js_only = Some(pages.get_results_route(campaign_id, Some(&js_modifier)));
                wasm_only = None;
            },
            Option::None => {
                all_benches = None;
                let js_modifier = ResultsPage::new(None, Some(SubmissionType::Js));
                js_only = Some(pages.get_results_route(campaign_id, Some(&js_modifier)));
                let wasm_modifier = ResultsPage::new(None, Some(SubmissionType::Wasm));
                wasm_only = Some(pages.get_results_route(campaign_id, Some(&wasm_modifier)));
            },
        }
        let next_page: Option<String> = if submissions.len() == RESUTS_LIMIT {
            let next_modifier = ResultsPage::new(Some(modifier.page() + 1), modifier.bench_type);
            Some(pages.get_results_route(campaign_id, Some(&next_modifier)))
        } else {
            None
        };
        ResultsPagePayload { next_page, submissions, js_only, wasm_only, all_benches }
    }
}

} // verus!
