//! The archiver: snapshot paths, the JSON and CSV documents, and the
//! pagination loop.  The JSON output is held against the real JSON
//! parser and the CSV output against the real CSV writer.

use survey::archive::{
    archive_fetch_all, benchmark_csv, campaign_json, csv_line, extract_record, get_headers,
    periodic_step, Archive, Archiver, ArchiverAction, Campaign, CancelSignal,
};
use survey::bench::{Bench, SubmissionType};
use survey::campaigns::{SurveyResponse, SurveyUser};
use survey::settings::{Database, Footer, Publish, Server, Settings};

fn campaign() -> Campaign {
    Campaign {
        id: "0f9b54c2-4aae-4da7-97b4-c21d6ff12fd9".to_string(),
        name: "spring run".to_string(),
        difficulties: vec![1, 2, 3, 4, 5],
        created_at: 1_600_000_000,
    }
}

fn response_with_benches(benches: Vec<Bench>) -> SurveyResponse {
    SurveyResponse {
        user: SurveyUser { created_at: 12, id: "user-uuid-1".to_string() },
        device_user_provided: "foo".to_string(),
        device_software_recognised: "Foobar.v2".to_string(),
        id: 1,
        threads: Some(4),
        submitted_at: 1_600_000_100,
        submission_type: SubmissionType::Wasm,
        benches,
    }
}

fn settings(dir: &str) -> Settings {
    Settings {
        debug: false,
        allow_registration: true,
        database: Database { url: "postgres://localhost/survey".to_string(), pool: 2 },
        server: Server {
            port: 8080,
            domain: "localhost".to_string(),
            cookie_secret: "SECRET-REDACTED".to_string(),
            cookie_secret2: "SECRET-REDACTED".to_string(),
            ip: "127.0.0.1".to_string(),
            proxy_has_tls: false,
        },
        source_code: "https://example.org/src".to_string(),
        support_email: "admin@example.org".to_string(),
        default_campaign: "0f9b54c2-4aae-4da7-97b4-c21d6ff12fd9".to_string(),
        footer: Footer {
            about: "https://example.org/about".to_string(),
            privacy: "https://example.org/privacy".to_string(),
            security: "https://example.org/security".to_string(),
            donate: "https://example.org/donate".to_string(),
            thanks: "https://example.org/thanks".to_string(),
        },
        publish: Publish { dir: dir.to_string(), duration: 30 },
    }
}

#[test]
fn archive_path_works() {
    let base_path = "base_path".to_string();
    let uuid = uuid::Uuid::new_v4().to_string();
    let now: i64 = 1_600_000_000;
    let archive = Archive::new(uuid.clone(), base_path.clone(), now);
    let archive_path = archive.archive_path_now();
    assert_eq!(archive_path, format!("{}/{}/{}", base_path, uuid, now));

    let campaign_file_path = archive.campaign_file_path();
    assert_eq!(campaign_file_path, format!("{}/{}/{}/campaign.json", base_path, uuid, now));

    let benchmark_file_path = archive.benchmark_file_path();
    assert_eq!(benchmark_file_path, format!("{}/{}/{}/benchmark.csv", base_path, uuid, now));
}

#[test]
fn campaign_json_matches_real_parser() {
    let c = campaign();
    let doc = campaign_json(&c);
    assert_eq!(
        doc,
        "{\"id\":\"0f9b54c2-4aae-4da7-97b4-c21d6ff12fd9\",\"name\":\"spring run\",\
         \"difficulties\":[1,2,3,4,5],\"created_at\":1600000000}"
    );
    let v: serde_json::Value = serde_json::from_str(&doc).unwrap();
    assert_eq!(v.get("id").unwrap().as_str(), Some("0f9b54c2-4aae-4da7-97b4-c21d6ff12fd9"));
    assert_eq!(v.get("name").unwrap().as_str(), Some("spring run"));
    assert_eq!(v.get("created_at").unwrap().as_i64(), Some(1_600_000_000));
    let ds: Vec<u64> =
        v.get("difficulties").unwrap().as_array().unwrap().iter().map(|d| d.as_u64().unwrap()).collect();
    assert_eq!(ds, vec![1, 2, 3, 4, 5]);
}

#[test]
fn campaign_json_escapes_like_the_real_serializer() {
    let mut c = campaign();
    c.name = "a\"b\\c\nd\te\ru\u{1}f".to_string();
    let doc = campaign_json(&c);
    // the name field round-trips through the real parser
    let v: serde_json::Value = serde_json::from_str(&doc).unwrap();
    assert_eq!(v.get("name").unwrap().as_str(), Some(c.name.as_str()));
    // and the escaped literal is byte-for-byte what the real serializer writes
    let expected = serde_json::to_string(&serde_json::Value::String(c.name.clone())).unwrap();
    assert!(doc.contains(&expected));
}

#[test]
fn csv_line_matches_real_writer() {
    let cases: Vec<Vec<&str>> = vec![
        vec!["a", "b", "c"],
        vec!["a,b", "c\"d", "line\nbreak", "cr\rhere"],
        vec!["", "x", ""],
        vec!["plain"],
        vec![""],
    ];
    for fields in cases {
        let owned: Vec<String> = fields.iter().map(|f| f.to_string()).collect();
        let mine = csv_line(&owned);
        let mut wtr = csv::WriterBuilder::new().from_writer(Vec::new());
        wtr.write_record(&fields).unwrap();
        let theirs = String::from_utf8(wtr.into_inner().unwrap()).unwrap();
        assert_eq!(mine, theirs, "csv encoding differs on {:?}", fields);
    }
}

#[test]
fn headers_cover_fixed_and_difficulty_columns() {
    let c = campaign();
    let headers = get_headers(&c);
    assert_eq!(
        headers,
        vec![
            "ID",
            "user",
            "device_user_provided",
            "device_software_recognised",
            "threads",
            "submitted_at",
            "submission_type",
            "Difficulty 1",
            "Difficulty 2",
            "Difficulty 3",
            "Difficulty 4",
            "Difficulty 5",
        ]
    );
}

#[test]
fn csv_rows_use_sentinel_for_missing_difficulties() {
    let c = campaign();
    let r = response_with_benches(vec![
        Bench { duration: "1.1".to_string(), difficulty: 1 },
        Bench { duration: "3.3".to_string(), difficulty: 3 },
        Bench { duration: "5.5".to_string(), difficulty: 5 },
    ]);
    let rec = extract_record(&c, r);
    assert_eq!(
        rec,
        vec![
            "1",
            "user-uuid-1",
            "foo",
            "Foobar.v2",
            "4",
            "1600000100",
            "wasm",
            "1.1",
            "-",
            "3.3",
            "-",
            "5.5",
        ]
    );
}

#[test]
fn csv_row_sentinel_for_missing_threads() {
    let c = campaign();
    let mut r = response_with_benches(vec![]);
    r.threads = None;
    let rec = extract_record(&c, r);
    assert_eq!(rec[4], "-");
    assert_eq!(&rec[7..], ["-", "-", "-", "-", "-"]);
}

#[test]
fn first_matching_measurement_wins() {
    let c = campaign();
    let r = response_with_benches(vec![
        Bench { duration: "2.0".to_string(), difficulty: 2 },
        Bench { duration: "9.9".to_string(), difficulty: 2 },
    ]);
    let rec = extract_record(&c, r);
    assert_eq!(rec[8], "2.0");
}

#[test]
fn end_to_end_snapshot() {
    let c = campaign();
    let r = response_with_benches(vec![
        Bench { duration: "1.1".to_string(), difficulty: 1 },
        Bench { duration: "2.2".to_string(), difficulty: 2 },
        Bench { duration: "3.3".to_string(), difficulty: 3 },
        Bench { duration: "4.4".to_string(), difficulty: 4 },
        Bench { duration: "5.5".to_string(), difficulty: 5 },
    ]);
    let archiver = Archiver::new(&settings("/tmp/archive"));
    let artifacts = archiver.archive_campaign(&c, vec![r], 1_700_000_000);

    assert_eq!(artifacts.dir, format!("/tmp/archive/{}/1700000000", c.id));
    assert_eq!(artifacts.campaign_json_path, format!("{}/campaign.json", artifacts.dir));
    assert_eq!(artifacts.benchmark_csv_path, format!("{}/benchmark.csv", artifacts.dir));

    let v: serde_json::Value = serde_json::from_str(&artifacts.campaign_json).unwrap();
    assert_eq!(v.get("id").unwrap().as_str(), Some(c.id.as_str()));
    assert_eq!(v.get("name").unwrap().as_str(), Some("spring run"));
    assert_eq!(v.get("created_at").unwrap().as_i64(), Some(1_600_000_000));

    let mut rdr =
        csv::ReaderBuilder::new().has_headers(false).from_reader(artifacts.benchmark_csv.as_bytes());
    let records: Vec<csv::StringRecord> = rdr.records().map(|r| r.unwrap()).collect();
    assert_eq!(records.len(), 2);
    assert_eq!(records[0].len(), 12);
    let data = &records[1];
    assert_eq!(&data[4], "4");
    assert_eq!(&data[6], "wasm");
    for col in 7..12 {
        assert_ne!(&data[col], "-");
    }
}

#[test]
fn two_passes_use_distinct_directories() {
    let c = campaign();
    let archiver = Archiver::new(&settings("/tmp/archive"));
    let first = archiver.archive_campaign(&c, vec![], 100);
    let second = archiver.archive_campaign(&c, vec![], 200);
    assert_ne!(first.dir, second.dir);
    // the metadata document depends on the campaign's state alone
    assert_eq!(first.campaign_json, second.campaign_json);
    assert_eq!(first.campaign_json, campaign_json(&c));
}

#[test]
fn pagination_fetch_counts() {
    let make = |n: usize| -> Vec<SurveyResponse> {
        (0..n).map(|_| response_with_benches(vec![])).collect()
    };
    // an exact multiple of the page size costs one extra, empty fetch
    let (all, fetches) = archive_fetch_all(make(100), 50);
    assert_eq!(all.len(), 100);
    assert_eq!(fetches, 3);

    let (all, fetches) = archive_fetch_all(make(75), 50);
    assert_eq!(all.len(), 75);
    assert_eq!(fetches, 2);

    let (all, fetches) = archive_fetch_all(make(0), 50);
    assert_eq!(all.len(), 0);
    assert_eq!(fetches, 1);

    let (all, fetches) = archive_fetch_all(make(50), 50);
    assert_eq!(all.len(), 50);
    assert_eq!(fetches, 2);
}

#[test]
fn pagination_keeps_order() {
    let all: Vec<SurveyResponse> = (0..7)
        .map(|i| {
            let mut r = response_with_benches(vec![]);
            r.id = i;
            r
        })
        .collect();
    let (out, fetches) = archive_fetch_all(all, 3);
    assert_eq!(out.iter().map(|r| r.id).collect::<Vec<_>>(), vec![0, 1, 2, 3, 4, 5, 6]);
    assert_eq!(fetches, 3);
}

#[test]
fn benchmark_csv_lists_header_then_rows() {
    let c = campaign();
    let rows = vec![response_with_benches(vec![]), response_with_benches(vec![])];
    let doc = benchmark_csv(&c, rows);
    let lines: Vec<&str> = doc.lines().collect();
    assert_eq!(lines.len(), 3);
    assert!(lines[0].starts_with("ID,user,"));
}

#[test]
fn periodic_loop_decisions() {
    assert_eq!(periodic_step(&CancelSignal::Received), ArchiverAction::Stop);
    assert_eq!(periodic_step(&CancelSignal::Closed), ArchiverAction::Stop);
    assert_eq!(periodic_step(&CancelSignal::Empty), ArchiverAction::RunPassThenSleep);
}

#[test]
fn server_bind_address() {
    let s = settings("/tmp/archive");
    assert_eq!(s.server.get_ip(), "127.0.0.1:8080");
}
