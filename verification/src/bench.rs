//! Benchmark submission model: what a participant submits against a
//! campaign, and the survey API's route table.

use vstd::prelude::*;

use crate::middleware::{url_encoded, url_encode, GetLoginRoute};
use crate::text::{replace_first, spec_replace_first, str_eq};

verus! {

/// Session key under which a survey user's identifier is stored.
pub const SURVEY_USER_ID: &'static str = "survey_user_id";

/// Uniqueness constraint on survey user identifiers; a collision here
/// retries registration with a fresh identifier.
pub const SURVEY_USER_CONSTRAINT: &'static str = "survey_users_id_key";

/// Uniqueness constraint on submission proof tokens; a collision here
/// retries with a fresh token.
pub const RESPONSE_TOKEN_CONSTRAINT: &'static str = "survey_response_tokens_id_key";

/// One measurement: how long one difficulty level took.  The duration is
/// carried as the decimal text the device reported; the core only ever
/// matches on the difficulty and copies the duration through.
#[derive(Clone, Debug)]
pub struct Bench {
    pub duration: String,
    pub difficulty: i32,
}

/// Which runtime produced a submission.
#[derive(Clone, Copy, Debug, PartialEq, Eq, Structural)]
pub enum SubmissionType {
    Wasm,
    Js,
}

/// The wire name of each submission type.
pub open spec fn spec_submission_type_name(t: SubmissionType) -> Seq<char> {
    match t {
        SubmissionType::Wasm => "wasm"@,
        SubmissionType::Js => "js"@,
    }
}

impl SubmissionType {
    /// The lowercase wire name of this submission type.
    pub fn to_string(&self) -> (r: String)
        ensures
            r@ == spec_submission_type_name(*self),
    {
        let mut out = String::new();
        match self {
            SubmissionType::Wasm => out.append("wasm"),
            SubmissionType::Js => out.append("js"),
        }
        out
    }

    /// Parses a wire name back; `None` when the text names no submission
    /// type.
    pub fn from_str(s: &str) -> (r: Option<SubmissionType>)
        ensures
            match r {
                Some(t) => s@ == spec_submission_type_name(t),
                None => s@ != "wasm"@ && s@ != "js"@,
            },
    {
        if str_eq(s, "wasm") {
            Some(SubmissionType::Wasm)
        } else if str_eq(s, "js") {
            Some(SubmissionType::Js)
        } else {
            None
        }
    }
}

/// A participant's full submission against one campaign.
#[derive(Clone, Debug)]
pub struct Submission {
    pub device_user_provided: String,
    pub device_software_recognised: String,
    pub threads: i32,
    pub benches: Vec<Bench>,
    pub submission_type: SubmissionType,
}

/// The receipt a successful submission returns: the submitting user and
/// the proof token that was allocated for the response.
#[derive(Clone, Debug)]
pub struct SubmissionProof {
    pub token: String,
    pub proof: String,
}

/// What a participant fetches before benchmarking: the campaign's
/// difficulty levels.
#[derive(Clone, Debug)]
pub struct BenchConfig {
    pub difficulties: Vec<i32>,
}

/// The receipt a successful submission answers with: the submitting
/// user's identifier and the proof token that was allocated for the
/// response.
pub fn submission_receipt(username: String, proof_token: String) -> (r: SubmissionProof)
    ensures
        r.token@ == username@,
        r.proof@ == proof_token@,
{
    SubmissionProof { token: username, proof: proof_token }
}

/// Route table of the survey (participant) API.
pub struct Benches {
    pub submit: &'static str,
    pub register: &'static str,
    pub fetch: &'static str,
    pub scope: &'static str,
}

impl Benches {
    /// The fixed survey API routes.
    pub fn new() -> (r: Benches)
        ensures
            r.submit@ == "/survey/api/v1/benches/{campaign_id}/submit"@,
            r.fetch@ == "/survey/api/v1/benches/{campaign_id}/fetch"@,
            r.register@ == "/survey/api/v1/benches/register"@,
            r.scope@ == "/survey/api/v1/benches/"@,
    {
        let submit = "/survey/api/v1/benches/{campaign_id}/submit";
        let fetch = "/survey/api/v1/benches/{campaign_id}/fetch";
        let register = "/survey/api/v1/benches/register";
        let scope = "/survey/api/v1/benches/";
        Benches { submit, register, fetch, scope }
    }

    /// The submit route for one campaign.
    pub fn submit_route(&self, campaign_id: &str) -> (r: String)
        ensures
            r@ == spec_replace_first(self.submit@, "{campaign_id}"@, campaign_id@),
    {
        replace_first(self.submit, "{campaign_id}", campaign_id)
    }

    /// The fetch route for one campaign.
    pub fn fetch_routes(&self, campaign_id: &str) -> (r: String)
        ensures
            r@ == spec_replace_first(self.fetch@, "{campaign_id}"@, campaign_id@),
    {
        replace_first(self.fetch, "{campaign_id}", campaign_id)
    }
}

impl GetLoginRoute for Benches {
    open spec fn spec_login_route(&self, src: Option<Seq<char>>) -> Seq<char> {
        match src {
            Option::Some(s) => self.register@ + "?redirect_to="@ + url_encoded(s),
            Option::None => self.register@,
        }
    }

    fn get_login_route(&self, src: Option<&str>) -> (r: String) {
        match src {
            Option::Some(redirect_to) => {
                let mut out = String::new();
                out.append(self.register);
                out.append("?redirect_to=");
                let encoded = url_encode(redirect_to);
                out.append(encoded.as_str());
                out
            },
            Option::None => {
                let mut out = String::new();
                out.append(self.register);
                out
            },
        }
    }
}

} // verus!
