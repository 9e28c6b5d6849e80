//! The campaign archiver.
//!
//! On every pass the archiver snapshots each campaign into a fresh
//! timestamped directory under the publish root: `campaign.json` holds
//! the campaign record serialized as JSON, and `benchmark.csv` one row
//! per response with one duration column per configured difficulty.
//! Responses are drained from the store in fixed-size pages until a
//! short page ends the loop.
//!
//! Everything that can be computed from plain values is computed and
//! verified here: the directory and file paths, the JSON document, the
//! CSV encoding, the per-response record with its `-` sentinels, and
//! the pagination arithmetic.  Only the filesystem writes and the
//! database fetches happen outside.

use vstd::prelude::*;

use crate::bench::{spec_submission_type_name, Bench};
use crate::campaigns::SurveyResponse;
use crate::settings::Settings;
use crate::text::{
    i64_to_string, push_char, spec_dec, spec_dec_int, lemma_dec_int_injective, u32_to_string,
    usize_to_string,
};

verus! {

/// Name of the campaign metadata file inside a snapshot directory.
pub const CAMPAIGN_INFO_FILE: &'static str = "campaign.json";

/// Name of the response export file inside a snapshot directory.
pub const BENCHMARK_FILE: &'static str = "benchmark.csv";

/// How many responses one archive fetch asks the store for.
pub const ARCHIVE_PAGE_SIZE: usize = 50;

/// A campaign as the archiver snapshots it.
#[derive(Clone, Debug)]
pub struct Campaign {
    pub id: String,
    pub name: String,
    pub difficulties: Vec<u32>,
    pub created_at: i64,
}

/// The lowercase hexadecimal digit for a value below sixteen.
pub open spec fn spec_hex_digit(d: nat) -> char
    recommends
        d < 16,
{
    if d < 10 {
        crate::text::spec_digit(d)
    } else if d == 10 {
        'a'
    } else if d == 11 {
        'b'
    } else if d == 12 {
        'c'
    } else if d == 13 {
        'd'
    } else if d == 14 {
        'e'
    } else {
        'f'
    }
}

/// How JSON escapes one character inside a string literal: the two
/// quote and backslash escapes, the short control escapes, `\u00XY`
/// for the remaining control characters, and the character itself
/// otherwise.
pub open spec fn spec_json_escape_char(c: char) -> Seq<char> {
    if c == '"' {
        seq!['\\', '"']
    } else if c == '\\' {
        seq!['\\', '\\']
    } else if c as u32 == 8 {
        seq!['\\', 'b']
    } else if c as u32 == 9 {
        seq!['\\', 't']
    } else if c as u32 == 10 {
        seq!['\\', 'n']
    } else if c as u32 == 12 {
        seq!['\\', 'f']
    } else if c as u32 == 13 {
        seq!['\\', 'r']
    } else if (c as u32) < 32 {
        let hi = spec_hex_digit((c as u32 / 16) as nat);
        let lo = spec_hex_digit((c as u32 % 16) as nat);
        seq!['\\', 'u', '0', '0', hi, lo]
    } else {
        seq![c]
    }
}

/// A string's characters with JSON escaping applied.
pub open spec fn spec_json_escaped(s: Seq<char>) -> Seq<char>
    decreases s.len(),
{
    if s.len() == 0 {
        Seq::empty()
    } else {
        spec_json_escaped(s.drop_last()) + spec_json_escape_char(s.last())
    }
}

/// A JSON string literal: quotes around the escaped characters.
pub open spec fn spec_json_string(s: Seq<char>) -> Seq<char> {
    seq!['"'] + spec_json_escaped(s) + seq!['"']
}

fn hex_digit_str(d: u32) -> (r: &'static str)
    requires
        d < 16,
    ensures
        r@ == seq![spec_hex_digit(d as nat)],
{
    proof {
        reveal_strlit("a");
        reveal_strlit("b");
        reveal_strlit("c");
        reveal_strlit("d");
        reveal_strlit("e");
        reveal_strlit("f");
    }
    if d < 10 {
        crate::text::digit_str(d as u64)
    } else {
        match d {
            10 => "a",
            11 => "b",
            12 => "c",
            13 => "d",
            14 => "e",
            _ => "f",
        }
    }
}

fn json_escape_into(out: &mut String, c: char)
    ensures
        final(out)@ == old(out)@ + spec_json_escape_char(c),
{
    let u = c as u32;
    if c == '"' {
        out.append("\\\"");
        proof {
            reveal_strlit("\\\"");
        }
    } else if c == '\\' {
        out.append("\\\\");
        proof {
            reveal_strlit("\\\\");
        }
    } else if u == 8 {
        out.append("\\b");
        proof {
            reveal_strlit("\\b");
        }
    } else if u == 9 {
        out.append("\\t");
        proof {
            reveal_strlit("\\t");
        }
    } else if u == 10 {
        out.append("\\n");
        proof {
            reveal_strlit("\\n");
        }
    } else if u == 12 {
        out.append("\\f");
        proof {
            reveal_strlit("\\f");
        }
    } else if u == 13 {
        out.append("\\r");
        proof {
            reveal_strlit("\\r");
        }
    } else if u < 32 {
        out.append("\\u00");
        proof {
            reveal_strlit("\\u00");
        }
        let hi = hex_digit_str(u / 16);
        out.append(hi);
        let lo = hex_digit_str(u % 16);
        out.append(lo);
    } else {
        push_char(out, c);
    }
}

/// Appends `s` to `out` with JSON string escaping applied.
fn json_escape_append(out: &mut String, s: &str)
    ensures
        final(out)@ == old(out)@ + spec_json_escaped(s@),
{
    let len = s.unicode_len();
    let mut i: usize = 0;
    while i < len
        invariant
            0 <= i <= len,
            len == s@.len(),
            out@ == old(out)@ + spec_json_escaped(s@.take(i as int)),
        decreases len - i,
    {
        let c = s.get_char(i);
        json_escape_into(out, c);
        proof {
            assert(s@.take(i + 1).drop_last() =~= s@.take(i as int));
            assert(s@.take(i + 1).last() == s@[i as int]);
        }
        i += 1;
    }
    proof {
        assert(s@.take(len as int) =~= s@);
    }
}

/// Appends `s` as a JSON string literal, quotes included.
fn json_string_append(out: &mut String, s: &str)
    ensures
        final(out)@ == old(out)@ + spec_json_string(s@),
{
    out.append("\"");
    json_escape_append(out, s);
    out.append("\"");
    proof {
        reveal_strlit("\"");
    }
}

/// The JSON array of difficulty levels: `[d1,d2,...]`.
pub open spec fn spec_json_u32_array(ds: Seq<u32>) -> Seq<char> {
    seq!['['] + spec_json_u32_items(ds) + seq![']']
}

/// The comma-separated numerals inside the array.
pub open spec fn spec_json_u32_items(ds: Seq<u32>) -> Seq<char>
    decreases ds.len(),
{
    if ds.len() == 0 {
        Seq::empty()
    } else if ds.len() == 1 {
        spec_dec(ds[0] as nat)
    } else {
        spec_json_u32_items(ds.drop_last()) + seq![','] + spec_dec(ds.last() as nat)
    }
}

fn json_u32_array_append(out: &mut String, ds: &Vec<u32>)
    ensures
        final(out)@ == old(out)@ + spec_json_u32_array(ds@),
{
    proof {
        reveal_strlit("[");
        reveal_strlit("]");
        reveal_strlit(",");
    }
    out.append("[");
    let n = ds.len();
    let mut i: usize = 0;
    while i < n
        invariant
            0 <= i <= n,
            n == ds@.len(),
            out@ == old(out)@ + seq!['['] + spec_json_u32_items(ds@.take(i as int)),
        decreases n - i,
    {
        if i > 0 {
            out.append(",");
        }
        let digits = u32_to_string(ds[i]);
        out.append(digits.as_str());
        proof {
            reveal_strlit(",");
            assert(ds@.take(i + 1).drop_last() =~= ds@.take(i as int));
            assert(ds@.take(i + 1).last() == ds@[i as int]);
            if i == 0 {
                assert(ds@.take(1).len() == 1);
                assert(ds@.take(1)[0] == ds@[0]);
            }
            assert(out@ =~= old(out)@ + seq!['['] + spec_json_u32_items(ds@.take(i + 1)));
        }
        i += 1;
    }
    out.append("]");
    proof {
        assert(ds@.take(n as int) =~= ds@);
    }
}

/// The campaign metadata document: the record's fields in declaration
/// order, exactly as the snapshot file holds them.
pub open spec fn spec_campaign_json(c: &Campaign) -> Seq<char> {
    "{\"id\":"@ + spec_json_string(c.id@) + ",\"name\":"@ + spec_json_string(c.name@)
        + ",\"difficulties\":"@ + spec_json_u32_array(c.difficulties@) + ",\"created_at\":"@
        + spec_dec_int(c.created_at as int) + "}"@
}

/// Serializes a campaign to its JSON snapshot document.
pub fn campaign_json(c: &Campaign) -> (r: String)
    ensures
        r@ == spec_campaign_json(c),
{
    let mut out = String::new();
    out.append("{\"id\":");
    json_string_append(&mut out, c.id.as_str());
    out.append(",\"name\":");
    json_string_append(&mut out, c.name.as_str());
    out.append(",\"difficulties\":");
    json_u32_array_append(&mut out, &c.difficulties);
    out.append(",\"created_at\":");
    let ts = i64_to_string(c.created_at);
    out.append(ts.as_str());
    out.append("}");
    out
}

/// Whether the CSV writer must quote a field: it holds a delimiter, a
/// quote, or a record-terminator character.
pub open spec fn spec_csv_needs_quotes(f: Seq<char>) -> bool {
    exists|i: int|
        0 <= i < f.len() && (#[trigger] f[i] == ',' || f[i] == '"' || f[i] == '\n' || f[i] == '\r')
}

/// A field's characters with every quote doubled.
pub open spec fn spec_csv_doubled(f: Seq<char>) -> Seq<char>
    decreases f.len(),
{
    if f.len() == 0 {
        Seq::empty()
    } else {
        spec_csv_doubled(f.drop_last()) + (if f.last() == '"' {
            seq!['"', '"']
        } else {
            seq![f.last()]
        })
    }
}

/// One encoded CSV field: quoted with doubled quotes when quoting is
/// needed, verbatim otherwise.
pub open spec fn spec_csv_field(f: Seq<char>) -> Seq<char> {
    if spec_csv_needs_quotes(f) {
        seq!['"'] + spec_csv_doubled(f) + seq!['"']
    } else {
        f
    }
}

/// The encoded fields joined by commas.
pub open spec fn spec_csv_fields(fields: Seq<Seq<char>>) -> Seq<char>
    decreases fields.len(),
{
    if fields.len() == 0 {
        Seq::empty()
    } else if fields.len() == 1 {
        spec_csv_field(fields[0])
    } else {
        spec_csv_fields(fields.drop_last()) + seq![','] + spec_csv_field(fields.last())
    }
}

/// One CSV record line, terminated by a line feed.  A record of one
/// single empty field is written as an explicitly quoted empty field,
/// as CSV writers do, to keep it distinguishable from an empty record.
pub open spec fn spec_csv_line(fields: Seq<Seq<char>>) -> Seq<char> {
    if fields.len() == 1 && fields[0].len() == 0 {
        seq!['"', '"', '\n']
    } else {
        spec_csv_fields(fields) + seq!['\n']
    }
}

fn csv_needs_quotes(f: &str) -> (r: bool)
    ensures
        r == spec_csv_needs_quotes(f@),
{
    let len = f.unicode_len();
    let mut i: usize = 0;
    while i < len
        invariant
            0 <= i <= len,
            len == f@.len(),
            forall|k: int|
                0 <= k < i ==> !(#[trigger] f@[k] == ',' || f@[k] == '"' || f@[k] == '\n'
                    || f@[k] == '\r'),
        decreases len - i,
    {
        let c = f.get_char(i);
        if c == ',' || c == '"' || c == '\n' || c == '\r' {
            return true;
        }
        i += 1;
    }
    false
}

fn csv_field_append(out: &mut String, f: &str)
    ensures
        final(out)@ == old(out)@ + spec_csv_field(f@),
{
    let needs = csv_needs_quotes(f);
    if !needs {
        out.append(f);
        return ;
    }
    out.append("\"");
    proof {
        reveal_strlit("\"");
    }
    let len = f.unicode_len();
    let mut i: usize = 0;
    while i < len
        invariant
            0 <= i <= len,
            len == f@.len(),
            out@ == old(out)@ + seq!['"'] + spec_csv_doubled(f@.take(i as int)),
        decreases len - i,
    {
        let c = f.get_char(i);
        if c == '"' {
            out.append("\"\"");
        } else {
            push_char(out, c);
        }
        proof {
            reveal_strlit("\"\"");
            assert(f@.take(i + 1).drop_last() =~= f@.take(i as int));
            assert(f@.take(i + 1).last() == f@[i as int]);
            assert(out@ =~= old(out)@ + seq!['"'] + spec_csv_doubled(f@.take(i + 1)));
        }
        i += 1;
    }
    out.append("\"");
    proof {
        assert(f@.take(len as int) =~= f@);
        assert(out@ =~= old(out)@ + spec_csv_field(f@));
    }
}

/// Encodes one record as a CSV line, as the export file holds it.
pub fn csv_line(fields: &Vec<String>) -> (r: String)
    ensures
        r@ == spec_csv_line(fields@.map_values(|s: String| s@)),
{
    let ghost views = fields@.map_values(|s: String| s@);
    let n = fields.len();
    if n == 1 && fields[0].as_str().unicode_len() == 0 {
        let mut out = String::new();
        out.append("\"\"\n");
        proof {
            reveal_strlit("\"\"\n");
            assert(views.len() == 1 && views[0].len() == 0);
            assert(out@ =~= spec_csv_line(views));
        }
        return out;
    }
    let mut out = String::new();
    let mut i: usize = 0;
    while i < n
        invariant
            0 <= i <= n,
            n == fields@.len(),
            views == fields@.map_values(|s: String| s@),
            views.len() == n,
            out@ == spec_csv_fields(views.take(i as int)),
        decreases n - i,
    {
        if i > 0 {
            out.append(",");
        }
        csv_field_append(&mut out, fields[i].as_str());
        proof {
            reveal_strlit(",");
            assert(views.take(i + 1).drop_last() =~= views.take(i as int));
            assert(views.take(i + 1).last() == views[i as int]);
            assert(views[i as int] == fields@[i as int]@);
            if i == 0 {
                assert(views.take(1).len() == 1);
                assert(views.take(1)[0] == views[0]);
            }
            assert(out@ =~= spec_csv_fields(views.take(i + 1)));
        }
        i += 1;
    }
    proof {
        assert(views.take(n as int) =~= views);
        if n == 1 {
            assert(views[0] == fields@[0]@);
        }
    }
    out.append("\n");
    proof {
        reveal_strlit("\n");
        assert(out@ =~= spec_csv_fields(views) + seq!['\n']);
    }
    out
}

/// The header fields of the export file: the seven fixed columns, then
/// one `Difficulty {d}` column per configured difficulty.
pub open spec fn spec_header_fields(ds: Seq<u32>) -> Seq<Seq<char>> {
    seq![
        "ID"@,
        "user"@,
        "device_user_provided"@,
        "device_software_recognised"@,
        "threads"@,
        "submitted_at"@,
        "submission_type"@,
    ] + ds.map_values(|d: u32| "Difficulty "@ + spec_dec(d as nat))
}

/// Builds the export file's header record.
pub fn get_headers(c: &Campaign) -> (r: Vec<String>)
    ensures
        r@.map_values(|s: String| s@) == spec_header_fields(c.difficulties@),
{
    let mut keys: Vec<String> = Vec::new();
    keys.push("ID".to_owned());
    keys.push("user".to_owned());
    keys.push("device_user_provided".to_owned());
    keys.push("device_software_recognised".to_owned());
    keys.push("threads".to_owned());
    keys.push("submitted_at".to_owned());
    keys.push("submission_type".to_owned());
    let ghost fixed = seq![
        "ID"@,
        "user"@,
        "device_user_provided"@,
        "device_software_recognised"@,
        "threads"@,
        "submitted_at"@,
        "submission_type"@,
    ];
    proof {
        assert(keys@.map_values(|s: String| s@) =~~= fixed);
    }
    let n = c.difficulties.len();
    let mut i: usize = 0;
    while i < n
        invariant
            0 <= i <= n,
            n == c.difficulties@.len(),
            keys@.map_values(|s: String| s@) =~= fixed + c.difficulties@.take(i as int).map_values(
                |d: u32| "Difficulty "@ + spec_dec(d as nat),
            ),
        decreases n - i,
    {
        let mut key = String::new();
        key.append("Difficulty ");
        let digits = u32_to_string(c.difficulties[i]);
        key.append(digits.as_str());
        let ghost keys_before = keys@;
        let ghost key_snapshot = key;
        keys.push(key);
        proof {
            let ghost f = |d: u32| "Difficulty "@ + spec_dec(d as nat);
            assert(keys@ == keys_before.push(key_snapshot));
            assert(key_snapshot@ =~= f(c.difficulties@[i as int]));
            assert(c.difficulties@.take(i + 1).map_values(f) =~~= c.difficulties@.take(
                i as int,
            ).map_values(f).push(f(c.difficulties@[i as int])));
            assert(keys@.map_values(|s: String| s@) =~~= keys_before.map_values(
                |s: String| s@,
            ).push(key_snapshot@));
            assert(keys@.map_values(|s: String| s@) =~~= fixed + c.difficulties@.take(
                i + 1,
            ).map_values(f));
        }
        i += 1;
    }
    proof {
        assert(c.difficulties@.take(n as int) =~= c.difficulties@);
        assert(keys@.map_values(|s: String| s@) =~~= spec_header_fields(c.difficulties@));
    }
    keys
}

/// The thread-count cell: the count, or the `-` sentinel when the
/// response carried none.
pub open spec fn spec_threads_cell(t: Option<usize>) -> Seq<char> {
    match t {
        Option::Some(v) => spec_dec(v as nat),
        Option::None => seq!['-'],
    }
}

/// A stored difficulty read back as the signed value it was created
/// from: the snapshot holds difficulties as unsigned 32-bit values, and
/// a measurement matches when its signed difficulty is congruent to it.
pub open spec fn spec_difficulty_signed(d: u32) -> int {
    if d <= i32::MAX {
        d as int
    } else {
        d as int - 0x1_0000_0000
    }
}

/// The duration cell for one difficulty: the duration of the first
/// measurement at exactly that difficulty, or the `-` sentinel when the
/// response holds no measurement at it.
pub open spec fn spec_bench_cell(benches: Seq<Bench>, d: u32) -> Seq<char>
    decreases benches.len(),
{
    if benches.len() == 0 {
        seq!['-']
    } else if benches[0].difficulty as int == spec_difficulty_signed(d) {
        benches[0].duration@
    } else {
        spec_bench_cell(benches.skip(1), d)
    }
}

/// A response that holds no measurement at a difficulty gets the
/// sentinel in that difficulty's column.
pub proof fn lemma_missing_difficulty_sentinel(benches: Seq<Bench>, d: u32)
    requires
        forall|i: int|
            0 <= i < benches.len() ==> (#[trigger] benches[i]).difficulty as int
                != spec_difficulty_signed(d),
    ensures
        spec_bench_cell(benches, d) == seq!['-'],
    decreases benches.len(),
{
    if benches.len() > 0 {
        assert(benches[0].difficulty as int != spec_difficulty_signed(d));
        assert(forall|i: int|
            0 <= i < benches.skip(1).len() ==> #[trigger] benches.skip(1)[i] == benches[i + 1]);
        lemma_missing_difficulty_sentinel(benches.skip(1), d);
    }
}

fn bench_cell(benches: &Vec<Bench>, d: u32) -> (r: String)
    ensures
        r@ == spec_bench_cell(benches@, d),
{
    let di: i32 = if d <= 0x7FFF_FFFF {
        d as i32
    } else {
        ((d as i64) - 0x1_0000_0000i64) as i32
    };
    assert(di as int == spec_difficulty_signed(d));
    let n = benches.len();
    proof {
        assert(benches@.skip(0) =~= benches@);
    }
    let mut j: usize = 0;
    while j < n
        invariant
            0 <= j <= n,
            n == benches@.len(),
            di as int == spec_difficulty_signed(d),
            spec_bench_cell(benches@.skip(j as int), d) == spec_bench_cell(benches@, d),
        decreases n - j,
    {
        proof {
            assert(benches@.skip(j as int)[0] == benches@[j as int]);
            assert(benches@.skip(j as int).skip(1) =~= benches@.skip(j + 1));
        }
        if benches[j].difficulty == di {
            return benches[j].duration.clone();
        }
        j += 1;
    }
    proof {
        assert(benches@.skip(n as int) =~= Seq::<Bench>::empty());
    }
    let mut out = String::new();
    out.append("-");
    proof {
        reveal_strlit("-");
        assert(out@ =~= seq!['-']);
    }
    out
}

/// The CSV record of one response: identifier, user, device labels,
/// thread count, submission time and type, then one duration cell per
/// configured difficulty, with `-` where no measurement matches.
pub open spec fn spec_record_fields(c: &Campaign, r: &SurveyResponse) -> Seq<Seq<char>> {
    seq![
        spec_dec(r.id as nat),
        r.user.id@,
        r.device_user_provided@,
        r.device_software_recognised@,
        spec_threads_cell(r.threads),
        spec_dec_int(r.submitted_at as int),
        spec_submission_type_name(r.submission_type),
    ] + c.difficulties@.map_values(|d: u32| spec_bench_cell(r.benches@, d))
}

/// Builds the CSV record of one response.
pub fn extract_record(c: &Campaign, r: SurveyResponse) -> (rec: Vec<String>)
    ensures
        rec@.map_values(|s: String| s@) == spec_record_fields(c, &r),
{
    let mut rec: Vec<String> = Vec::new();
    rec.push(usize_to_string(r.id));
    rec.push(r.user.id);
    rec.push(r.device_user_provided);
    rec.push(r.device_software_recognised);
    let threads_cell = match r.threads {
        Option::Some(v) => usize_to_string(v),
        Option::None => {
            let mut s = String::new();
            s.append("-");
            proof {
                reveal_strlit("-");
                assert(s@ =~= seq!['-']);
            }
            s
        },
    };
    rec.push(threads_cell);
    rec.push(i64_to_string(r.submitted_at));
    rec.push(r.submission_type.to_string());
    let ghost fixed = seq![
        spec_dec(r.id as nat),
        r.user.id@,
        r.device_user_provided@,
        r.device_software_recognised@,
        spec_threads_cell(r.threads),
        spec_dec_int(r.submitted_at as int),
        spec_submission_type_name(r.submission_type),
    ];
    proof {
        assert(rec@.map_values(|s: String| s@) =~~= fixed);
    }
    let n = c.difficulties.len();
    let mut i: usize = 0;
    while i < n
        invariant
            0 <= i <= n,
            n == c.difficulties@.len(),
            rec@.map_values(|s: String| s@) =~= fixed + c.difficulties@.take(i as int).map_values(
                |d: u32| spec_bench_cell(r.benches@, d),
            ),
        decreases n - i,
    {
        let cell = bench_cell(&r.benches, c.difficulties[i]);
        let ghost rec_before = rec@;
        let ghost cell_snapshot = cell;
        rec.push(cell);
        proof {
            let ghost f = |d: u32| spec_bench_cell(r.benches@, d);
            assert(rec@ == rec_before.push(cell_snapshot));
            assert(cell_snapshot@ == f(c.difficulties@[i as int]));
            assert(c.difficulties@.take(i + 1).map_values(f) =~~= c.difficulties@.take(
                i as int,
            ).map_values(f).push(f(c.difficulties@[i as int])));
            assert(rec@.map_values(|s: String| s@) =~~= rec_before.map_values(
                |s: String| s@,
            ).push(cell_snapshot@));
            assert(rec@.map_values(|s: String| s@) =~~= fixed + c.difficulties@.take(
                i + 1,
            ).map_values(f));
        }
        i += 1;
    }
    proof {
        assert(c.difficulties@.take(n as int) =~= c.difficulties@);
        assert(rec@.map_values(|s: String| s@) =~~= spec_record_fields(c, &r));
    }
    rec
}

/// The rows of the export file: one CSV line per response, in order.
pub open spec fn spec_csv_rows(c: &Campaign, rs: Seq<SurveyResponse>) -> Seq<char>
    decreases rs.len(),
{
    if rs.len() == 0 {
        Seq::empty()
    } else {
        spec_csv_line(spec_record_fields(c, &rs[0])) + spec_csv_rows(c, rs.skip(1))
    }
}

/// The whole export file: the header line, then one line per response.
pub open spec fn spec_benchmark_csv(c: &Campaign, rs: Seq<SurveyResponse>) -> Seq<char> {
    spec_csv_line(spec_header_fields(c.difficulties@)) + spec_csv_rows(c, rs)
}

/// Builds the whole `benchmark.csv` document for one campaign from its
/// responses.
pub fn benchmark_csv(c: &Campaign, responses: Vec<SurveyResponse>) -> (r: String)
    ensures
        r@ == spec_benchmark_csv(c, responses@),
{
    let ghost orig = responses@;
    let headers = get_headers(c);
    let mut out = csv_line(&headers);
    let mut rest = responses;
    while rest.len() > 0
        invariant
            out@ + spec_csv_rows(c, rest@) == spec_benchmark_csv(c, orig),
        decreases rest@.len(),
    {
        let ghost before = rest@;
        let x = rest.remove(0);
        proof {
            assert(x == before[0]);
            assert(before.remove(0) =~= before.skip(1));
        }
        let fields = extract_record(c, x);
        let line = csv_line(&fields);
        out.append(line.as_str());
        proof {
            assert(out@ + spec_csv_rows(c, rest@) =~= spec_benchmark_csv(c, orig));
        }
    }
    proof {
        assert(spec_csv_rows(c, rest@) =~= Seq::<char>::empty());
        assert(out@ =~= spec_benchmark_csv(c, orig));
    }
    out
}

/// The directory a campaign's snapshot of one pass goes into:
/// `{base}/{campaign}/{unix timestamp}`.
pub open spec fn spec_archive_dir(base: Seq<char>, campaign: Seq<char>, now: int) -> Seq<char> {
    base + "/"@ + campaign + "/"@ + spec_dec_int(now)
}

/// One campaign's snapshot location for one pass.
pub struct Archive {
    pub now: i64,
    pub base_path: String,
    pub campaign: String,
}

impl Archive {
    /// A snapshot location for the given campaign, publish root and
    /// pass timestamp.
    pub fn new(campaign: String, base_path: String, now: i64) -> (r: Self)
        ensures
            r.now == now,
            r.base_path@ == base_path@,
            r.campaign@ == campaign@,
    {
        Archive { now, campaign, base_path }
    }

    /// The campaign's directory under the publish root.
    pub fn campaign_path(&self) -> (r: String)
        ensures
            r@ == self.base_path@ + "/"@ + self.campaign@,
    {
        let mut out = String::new();
        out.append(self.base_path.as_str());
        out.append("/");
        out.append(self.campaign.as_str());
        out
    }

    /// This pass's timestamped snapshot directory.
    pub fn archive_path_now(&self) -> (r: String)
        ensures
            r@ == spec_archive_dir(self.base_path@, self.campaign@, self.now as int),
    {
        let mut out = self.campaign_path();
        out.append("/");
        let ts = i64_to_string(self.now);
        out.append(ts.as_str());
        out
    }

    /// Where this pass's campaign metadata file goes.
    pub fn campaign_file_path(&self) -> (r: String)
        ensures
            r@ == spec_archive_dir(self.base_path@, self.campaign@, self.now as int) + "/"@
                + "campaign.json"@,
    {
        let mut out = self.archive_path_now();
        out.append("/");
        out.append(CAMPAIGN_INFO_FILE);
        out
    }

    /// Where this pass's response export file goes.
    pub fn benchmark_file_path(&self) -> (r: String)
        ensures
            r@ == spec_archive_dir(self.base_path@, self.campaign@, self.now as int) + "/"@
                + "benchmark.csv"@,
    {
        let mut out = self.archive_path_now();
        out.append("/");
        out.append(BENCHMARK_FILE);
        out
    }
}

/// Two passes over the same campaign at different timestamps write
/// into two distinct directories; and since [`campaign_json`] is a
/// function of the campaign record alone, each directory's metadata
/// file holds exactly the campaign's state serialized at its pass.
pub proof fn lemma_archive_dirs_distinct(base: Seq<char>, campaign: Seq<char>, t1: int, t2: int)
    requires
        t1 != t2,
    ensures
        spec_archive_dir(base, campaign, t1) != spec_archive_dir(base, campaign, t2),
{
    lemma_dec_int_injective(t1, t2);
    let p = base + "/"@ + campaign + "/"@;
    let s1 = spec_archive_dir(base, campaign, t1);
    let s2 = spec_archive_dir(base, campaign, t2);
    if s1 == s2 {
        assert(spec_dec_int(t1) =~= s1.subrange(p.len() as int, s1.len() as int));
        assert(spec_dec_int(t2) =~= s2.subrange(p.len() as int, s2.len() as int));
        assert(false);
    }
}

/// Everything one pass writes for one campaign: the snapshot
/// directory, the two file paths, and the two documents.
pub struct ArchiveArtifacts {
    pub dir: String,
    pub campaign_json_path: String,
    pub campaign_json: String,
    pub benchmark_csv_path: String,
    pub benchmark_csv: String,
}

/// The archiver: snapshots every campaign under its publish root.
pub struct Archiver {
    pub base_path: String,
}

impl Archiver {
    /// An archiver writing under the configured publish directory.
    pub fn new(s: &Settings) -> (r: Self)
        ensures
            r.base_path@ == s.publish.dir@,
    {
        Archiver { base_path: s.publish.dir.clone() }
    }

    /// Computes everything one pass writes for one campaign from the
    /// campaign record, its responses, and the pass timestamp.  The
    /// caller persists the two documents at the two paths.
    pub fn archive_campaign(&self, c: &Campaign, responses: Vec<SurveyResponse>, now: i64) -> (r:
        ArchiveArtifacts)
        ensures
            r.dir@ == spec_archive_dir(self.base_path@, c.id@, now as int),
            r.campaign_json_path@ == r.dir@ + "/"@ + "campaign.json"@,
            r.campaign_json@ == spec_campaign_json(c),
            r.benchmark_csv_path@ == r.dir@ + "/"@ + "benchmark.csv"@,
            r.benchmark_csv@ == spec_benchmark_csv(c, responses@),
    {
        let archive = Archive::new(c.id.clone(), self.base_path.clone(), now);
        let dir = archive.archive_path_now();
        let campaign_json_path = archive.campaign_file_path();
        let benchmark_csv_path = archive.benchmark_file_path();
        let campaign_json_doc = campaign_json(c);
        let benchmark_csv_doc = benchmark_csv(c, responses);
        ArchiveArtifacts {
            dir,
            campaign_json_path,
            campaign_json: campaign_json_doc,
            benchmark_csv_path,
            benchmark_csv: benchmark_csv_doc,
        }
    }
}

/// Drains a campaign's responses in pages of `limit`, as the export
/// loop fetches them, and counts the fetches: every page but the last
/// is full, the loop stops at the first short page, and every response
/// comes out exactly once in order.  A response count that is an exact
/// multiple of the page size therefore costs one extra, empty fetch.
pub fn archive_fetch_all(responses: Vec<SurveyResponse>, limit: usize) -> (r: (Vec<
    SurveyResponse,
>, usize))
    requires
        limit > 0,
        responses@.len() < usize::MAX,
    ensures
        r.0@ == responses@,
        r.1 as int == responses@.len() as int / limit as int + 1,
{
    let ghost orig = responses@;
    let mut rest = responses;
    let mut out: Vec<SurveyResponse> = Vec::new();
    let mut fetches: usize = 0;
    loop
        invariant_except_break
            limit > 0,
            orig.len() < usize::MAX,
            out@ + rest@ =~= orig,
            out@.len() == fetches * limit,
            fetches * limit <= orig.len(),
        ensures
            out@ == orig,
            fetches as int == orig.len() as int / limit as int + 1,
        decreases rest@.len(),
    {
        proof {
            assert(fetches <= fetches * limit) by (nonlinear_arith)
                requires
                    limit >= 1,
                    fetches >= 0,
            ;
        }
        fetches += 1;
        let ghost out_before = out@.len() as int;
        let mut moved: usize = 0;
        while moved < limit && rest.len() > 0
            invariant
                0 <= moved <= limit,
                out@ + rest@ =~= orig,
                out@.len() == out_before + moved,
                orig.len() < usize::MAX,
            decreases limit - moved,
        {
            let ghost rest_before = rest@;
            let x = rest.remove(0);
            proof {
                assert(rest_before.remove(0) =~= rest_before.skip(1));
            }
            out.push(x);
            proof {
                assert(out@ + rest@ =~= orig);
            }
            moved += 1;
        }
        if moved < limit {
            proof {
                assert(rest@.len() == 0);
                assert(out@ =~= orig);
                assert(orig.len() as int == (fetches - 1) * limit + moved);
                vstd::arithmetic::div_mod::lemma_fundamental_div_mod_converse(
                    orig.len() as int,
                    limit as int,
                    fetches as int - 1,
                    moved as int,
                );
            }
            break;
        }
        proof {
            assert((fetches - 1) * limit + limit == fetches * limit) by (nonlinear_arith);
            assert(out@.len() == fetches * limit);
            assert(fetches * limit <= orig.len());
        }
    }
    (out, fetches)
}

/// Exactly `page_size * k` responses cost `k + 1` fetches: the first
/// `k` return full pages and the last returns none.
pub proof fn lemma_pagination_fetches(limit: int, k: int)
    requires
        limit > 0,
        k >= 0,
    ensures
        (limit * k) / limit + 1 == k + 1,
{
    assert(limit * k == k * limit + 0) by (nonlinear_arith);
    vstd::arithmetic::div_mod::lemma_fundamental_div_mod_converse(limit * k, limit, k, 0);
}

/// What the archiver's periodic loop found when it polled its
/// cancellation channel.
pub enum CancelSignal {
    /// the one-shot cancellation was received
    Received,
    /// no signal yet
    Empty,
    /// the channel's sender is gone
    Closed,
}

/// What the periodic loop does next.
#[derive(PartialEq, Eq, Structural, Debug)]
pub enum ArchiverAction {
    /// leave the loop without starting another pass
    Stop,
    /// run one archive pass, then sleep for the configured interval
    RunPassThenSleep,
}

/// One decision of the periodic loop: the cancellation channel is
/// polled without blocking before every pass; a received signal or a
/// closed channel stops the loop, and otherwise one pass runs and the
/// loop sleeps.  A failed pass only skips to the sleep; it never stops
/// the loop.
pub fn periodic_step(signal: &CancelSignal) -> (r: ArchiverAction)
    ensures
        r == (match signal {
            CancelSignal::Received => ArchiverAction::Stop,
            CancelSignal::Empty => ArchiverAction::RunPassThenSleep,
            CancelSignal::Closed => ArchiverAction::Stop,
        }),
{
    match signal {
        CancelSignal::Received => ArchiverAction::Stop,
        CancelSignal::Empty => ArchiverAction::RunPassThenSleep,
        CancelSignal::Closed => ArchiverAction::Stop,
    }
}

} // verus!
