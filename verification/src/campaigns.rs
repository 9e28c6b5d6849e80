//! Campaigns and their results: the admin-side data model, the sorted
//! difficulty invariant, and the paging and filtering semantics of the
//! result queries.

use vstd::prelude::*;

use vstd::multiset::Multiset;

use crate::bench::{Bench, SubmissionType};
use crate::text::{replace_first, spec_dec, spec_replace_first, usize_to_string};

verus! {

/// Constraint name the campaign insert's collision test looks for in
/// the database error message.
pub const CAMPAIGN_ID_CONSTRAINT: &'static str = "survey_admins_id_key";

/// A request to create a campaign: a name and its difficulty levels.
#[derive(Clone, Debug)]
pub struct AddCapmaign {
    pub name: String,
    pub difficulties: Vec<i32>,
}

/// The answer to a campaign creation: the freshly allocated campaign id.
#[derive(Clone, Debug)]
pub struct AddCapmaignResp {
    pub campaign_id: String,
}

/// One entry of an admin's campaign listing.
#[derive(Clone, Debug)]
pub struct ListCampaignResp {
    pub name: String,
    pub uuid: String,
}

/// An anonymous participant.
#[derive(Clone, Debug)]
pub struct SurveyUser {
    pub created_at: i64,
    pub id: String,
}

/// One participant's submission as the result queries return it.
#[derive(Clone, Debug)]
pub struct SurveyResponse {
    pub user: SurveyUser,
    pub device_user_provided: String,
    pub device_software_recognised: String,
    pub id: usize,
    pub threads: Option<usize>,
    pub submitted_at: i64,
    pub submission_type: SubmissionType,
    pub benches: Vec<Bench>,
}

/// Ascending order.
pub open spec fn spec_sorted(s: Seq<i32>) -> bool {
    forall|i: int, j: int| 0 <= i < j < s.len() ==> s[i] <= s[j]
}

proof fn lemma_to_multiset_add(s1: Seq<i32>, s2: Seq<i32>)
    ensures
        (s1 + s2).to_multiset() =~= s1.to_multiset().add(s2.to_multiset()),
    decreases s2.len(),
{
    broadcast use vstd::seq_lib::group_to_multiset_ensures;

    if s2.len() == 0 {
        assert(s1 + s2 =~= s1);
        assert(s2.to_multiset() =~= Multiset::<i32>::empty());
    } else {
        lemma_to_multiset_add(s1, s2.drop_last());
        assert(s2 =~= s2.drop_last().push(s2.last()));
        assert(s2.to_multiset() =~= s2.drop_last().to_multiset().insert(s2.last()));
        assert(s1 + s2 =~= (s1 + s2.drop_last()).push(s2.last()));
        assert((s1 + s2).to_multiset() =~= (s1 + s2.drop_last()).to_multiset().insert(s2.last()));
    }
}

proof fn lemma_insert_to_multiset(s: Seq<i32>, i: int, x: i32)
    requires
        0 <= i <= s.len(),
    ensures
        s.insert(i, x).to_multiset() =~= s.to_multiset().insert(x),
{
    broadcast use vstd::seq_lib::group_to_multiset_ensures;

    assert(s.insert(i, x) =~= s.take(i) + (seq![x] + s.skip(i)));
    lemma_to_multiset_add(s.take(i), seq![x] + s.skip(i));
    lemma_to_multiset_add(seq![x], s.skip(i));
    assert(seq![x] =~= Seq::<i32>::empty().push(x));
    assert(seq![x].to_multiset() =~= Multiset::<i32>::empty().insert(x));
    assert(s =~= s.take(i) + s.skip(i));
    lemma_to_multiset_add(s.take(i), s.skip(i));
}

/// Sorts the values ascending; the result holds exactly the same values.
pub fn sort_i32(v: &mut Vec<i32>)
    ensures
        spec_sorted(final(v)@),
        final(v)@.to_multiset() == old(v)@.to_multiset(),
{
    broadcast use vstd::seq_lib::group_to_multiset_ensures;

    let ghost orig = v@;
    let mut out: Vec<i32> = Vec::new();
    let n = v.len();
    let mut k: usize = 0;
    while k < n
        invariant
            0 <= k <= n,
            n == orig.len(),
            v@ == orig,
            spec_sorted(out@),
            out@.to_multiset() == orig.take(k as int).to_multiset(),
        decreases n - k,
    {
        let x = v[k];
        let mut i: usize = 0;
        while i < out.len() && out[i] <= x
            invariant
                0 <= i <= out@.len(),
                spec_sorted(out@),
                forall|j: int| 0 <= j < i ==> out@[j] <= x,
            decreases out@.len() - i,
        {
            i += 1;
        }
        let ghost before = out@;
        out.insert(i, x);
        proof {
            assert(out@ == before.insert(i as int, x));
            before.insert_ensures(i as int, x);
            assert(spec_sorted(out@)) by {
                assert(forall|a: int, b: int|
                    0 <= a < b < out@.len() ==> out@[a] <= out@[b]) by {
                    assert(forall|j: int| 0 <= j < i ==> out@[j] == before[j]);
                    assert(out@[i as int] == x);
                    assert(forall|j: int|
                        i < j < out@.len() ==> out@[j] == before[j - 1]);
                    assert(i < before.len() ==> before[i as int] > x);
                };
            };
            lemma_insert_to_multiset(before, i as int, x);
            assert(orig.take(k + 1) =~= orig.take(k as int).push(orig[k as int]));
            assert(orig.take(k as int).push(orig[k as int]).to_multiset() =~= orig.take(
                k as int,
            ).to_multiset().insert(orig[k as int])) by {
                broadcast use vstd::seq_lib::group_to_multiset_ensures;

            };
        }
        k += 1;
    }
    proof {
        assert(orig.take(n as int) =~= orig);
    }
    *v = out;
}

impl AddCapmaign {
    /// Sorts the difficulty list ascending before the campaign is
    /// persisted; the name and the set of difficulties are untouched.
    /// Every list a campaign is ever stored or read with has passed
    /// through here, so stored difficulty lists are always sorted.
    pub fn sort_difficulties(&mut self)
        ensures
            spec_sorted(final(self).difficulties@),
            final(self).difficulties@.to_multiset() == old(self).difficulties@.to_multiset(),
            final(self).name@ == old(self).name@,
    {
        sort_i32(&mut self.difficulties);
    }
}

/// Whether a response passes an optional submission-type filter.
pub open spec fn spec_matches_filter(r: SurveyResponse, filter: Option<SubmissionType>) -> bool {
    match filter {
        Option::Some(t) => r.submission_type == t,
        Option::None => true,
    }
}

/// The responses that pass the filter, in their original order.
pub open spec fn spec_filtered(all: Seq<SurveyResponse>, filter: Option<SubmissionType>) -> Seq<
    SurveyResponse,
>
    decreases all.len(),
{
    if all.len() == 0 {
        Seq::empty()
    } else {
        let rest = spec_filtered(all.drop_last(), filter);
        if spec_matches_filter(all.last(), filter) {
            rest.push(all.last())
        } else {
            rest
        }
    }
}

/// One page of a sequence: the window of `limit` entries starting at
/// `page * limit`, clipped to the sequence's end.
pub open spec fn spec_page(all: Seq<SurveyResponse>, page: nat, limit: nat) -> Seq<SurveyResponse> {
    let start = if page * limit > all.len() {
        all.len() as int
    } else {
        (page * limit) as int
    };
    let end = if start + limit > all.len() {
        all.len() as int
    } else {
        start + limit
    };
    all.subrange(start, end)
}

/// The optional-type filter over a response list, as the result query's
/// `WHERE` clause applies it: kept responses in their original order.
pub fn filter_responses(all: Vec<SurveyResponse>, filter: &Option<SubmissionType>) -> (r: Vec<
    SurveyResponse,
>)
    ensures
        r@ == spec_filtered(all@, *filter),
{
    let ghost orig = all@;
    let mut rest = all;
    let total = rest.len();
    assert(total == orig.len());
    let mut out: Vec<SurveyResponse> = Vec::new();
    let ghost n = orig.len();
    let mut k: usize = 0;
    while rest.len() > 0
        invariant
            0 <= k <= n,
            n == orig.len(),
            n <= usize::MAX,
            rest@ =~= orig.skip(k as int),
            out@ == spec_filtered(orig.take(k as int), *filter),
        decreases rest@.len(),
    {
        let x = rest.remove(0);
        proof {
            assert(x == orig[k as int]);
            assert(orig.skip(k as int).remove(0) =~= orig.skip(k + 1));
            assert(orig.take(k + 1).drop_last() =~= orig.take(k as int));
            assert(orig.take(k + 1).last() == orig[k as int]);
        }
        let keep = match filter {
            Option::Some(t) => x.submission_type == *t,
            Option::None => true,
        };
        if keep {
            out.push(x);
        }
        k += 1;
    }
    proof {
        assert(orig.take(k as int) =~= orig);
    }
    out
}

/// One page of a response list, as the result query's `LIMIT`/`OFFSET`
/// clip it: `limit` entries starting at `page * limit`.
pub fn page_responses(all: Vec<SurveyResponse>, page: usize, limit: usize) -> (r: Vec<
    SurveyResponse,
>)
    ensures
        r@ == spec_page(all@, page as nat, limit as nat),
{
    let ghost orig = all@;
    let n = all.len();
    let start: usize = match page.checked_mul(limit) {
        Some(s) => if s > n {
            n
        } else {
            s
        },
        None => n,
    };
    proof {
        assert(page * limit >= 0);
        if page * limit > usize::MAX as int {
            assert(page * limit > orig.len());
        }
    }
    let end: usize = if limit > n - start {
        n
    } else {
        start + limit
    };
    let mut rest = all;
    let mut j: usize = 0;
    while j < start
        invariant
            0 <= j <= start,
            start <= n,
            n == orig.len(),
            rest@ =~= orig.skip(j as int),
        decreases start - j,
    {
        let _dropped = rest.remove(0);
        proof {
            assert(orig.skip(j as int).remove(0) =~= orig.skip(j + 1));
        }
        j += 1;
    }
    let mut out: Vec<SurveyResponse> = Vec::new();
    let mut i: usize = start;
    while i < end
        invariant
            start <= i <= end,
            end <= n,
            n == orig.len(),
            rest@ =~= orig.skip(i as int),
            out@ =~= orig.subrange(start as int, i as int),
        decreases end - i,
    {
        let x = rest.remove(0);
        proof {
            assert(x == orig[i as int]);
            assert(orig.skip(i as int).remove(0) =~= orig.skip(i + 1));
            assert(orig.subrange(start as int, i + 1) =~= orig.subrange(
                start as int,
                i as int,
            ).push(orig[i as int]));
        }
        out.push(x);
        i += 1;
    }
    out
}

/// The reference semantics of the paged, optionally filtered result
/// query: the requested page of the filtered response list.
pub fn get_results_page(
    all: Vec<SurveyResponse>,
    page: usize,
    limit: usize,
    filter: &Option<SubmissionType>,
) -> (r: Vec<SurveyResponse>)
    ensures
        r@ == spec_page(spec_filtered(all@, *filter), page as nat, limit as nat),
{
    let filtered = filter_responses(all, filter);
    page_responses(filtered, page, limit)
}

/// Paging selects the page-th window of the list.
pub open spec fn spec_results_page(query: Option<usize>) -> nat {
    match query {
        Option::Some(p) => p as nat,
        Option::None => 0,
    }
}

/// Query modifiers of the result endpoints: a page index and an
/// optional submission-type filter.
#[derive(Clone, Debug)]
pub struct ResultsPage {
    pub page: Option<usize>,
    pub bench_type: Option<SubmissionType>,
}

impl ResultsPage {
    /// The requested page, defaulting to the first.
    pub fn page(&self) -> (r: usize)
        ensures
            r as nat == spec_results_page(self.page),
    {
        match &self.page {
            Option::Some(p) => *p,
            Option::None => 0,
        }
    }

    pub fn new(page: Option<usize>, bench_type: Option<SubmissionType>) -> (r: Self)
        ensures
            r.page == page,
            r.bench_type == bench_type,
    {
        ResultsPage { page, bench_type }
    }

    /// Whether an explicit page was requested.
    pub fn has_page(&self) -> (r: bool)
        ensures
            r == (self.page matches Option::Some(_)),
    {
        match &self.page {
            Option::Some(_) => true,
            Option::None => false,
        }
    }
}

/// Route table of the admin campaign API.
pub struct Campaign {
    pub add: &'static str,
    pub delete: &'static str,
    pub list: &'static str,
    pub results: &'static str,
}

/// The query-string suffix a results route carries for a modifier:
/// `?page={p}` when a page is requested, then `?bench_type={t}` or
/// `&bench_type={t}` when a filter is requested.
pub open spec fn spec_results_query_suffix(modifier: ResultsPage) -> Seq<char> {
    let page_part = match modifier.page {
        Option::Some(p) => "?page="@ + spec_dec(p as nat),
        Option::None => Seq::<char>::empty(),
    };
    let type_part = match modifier.bench_type {
        Option::Some(t) => (if modifier.page matches Option::Some(_) {
            "&bench_type="@
        } else {
            "?bench_type="@
        }) + crate::bench::spec_submission_type_name(t),
        Option::None => Seq::<char>::empty(),
    };
    page_part + type_part
}

impl Campaign {
    /// The fixed admin campaign routes.
    pub fn new() -> (r: Campaign)
        ensures
            r.add@ == "/admin/api/v1/campaign/add"@,
            r.delete@ == "/admin/api/v1/campaign/{uuid}/delete"@,
            r.list@ == "/admin/api/v1/campaign/list"@,
            r.results@ == "/admin/api/v1/campaign/{uuid}/results"@,
    {
        let add = "/admin/api/v1/campaign/add";
        let delete = "/admin/api/v1/campaign/{uuid}/delete";
        let list = "/admin/api/v1/campaign/list";
        let results = "/admin/api/v1/campaign/{uuid}/results";
        Campaign { add, delete, list, results }
    }

    /// The delete route for one campaign.
    pub fn get_delete_route(&self, campaign_id: &str) -> (r: String)
        ensures
            r@ == spec_replace_first(self.delete@, "{uuid}"@, campaign_id@),
    {
        replace_first(self.delete, "{uuid}", campaign_id)
    }

    /// The results route for one campaign, with the modifier's page and
    /// filter as query parameters.
    pub fn get_results_route(&self, campaign_id: &str, modifier: Option<&ResultsPage>) -> (r:
        String)
        ensures
            r@ == spec_replace_first(self.results@, "{uuid}"@, campaign_id@) + match modifier {
                Option::Some(m) => spec_results_query_suffix(*m),
                Option::None => Seq::<char>::empty(),
            },
    {
        let mut res = replace_first(self.results, "{uuid}", campaign_id);
        if let Some(m) = modifier {
            let has_page = m.has_page();
            if has_page {
                res.append("?page=");
                let page_digits = usize_to_string(m.page());
                res.append(page_digits.as_str());
            }
            if let Some(bench_type) = &m.bench_type {
                if has_page {
                    res.append("&bench_type=");
                } else {
                    res.append("?bench_type=");
                }
                let name = bench_type.to_string();
                res.append(name.as_str());
            }
        }
        res
    }
}

} // verus!
