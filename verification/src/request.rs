use vstd::prelude::*;

use crate::config::Config;
use crate::json::{append_json_string, json_escaped, json_string};

verus! {

/// The URL a submission is posted to: the chief base URL followed by the
/// fixed submission route.
pub open spec fn submit_target_spec(chief_url: Seq<char>) -> Seq<char> {
    chief_url + "/api/v1/submit"@
}

/// The JSON body of a submission: an object holding `sourceUrl` first and
/// `packageUrl` second, both always present, both JSON string tokens.
pub open spec fn submit_payload_spec(source_url: Seq<char>, package_url: Seq<char>) -> Seq<char> {
    "{\"sourceUrl\":"@ + json_string(source_url) + ",\"packageUrl\":"@ + json_string(package_url)
        + "}"@
}

/// A fully built submission request: where to post and what to post.
pub struct SubmitRequest {
    pub target_url: String,
    pub payload: String,
}

/// Builds the submission request for one `submit` invocation. Deterministic,
/// no side effects: the target is plain concatenation of the configured chief
/// URL and the submission route, and the payload carries the two supplied
/// values verbatim under their JSON keys. An empty source URL is a valid
/// value and stays in the payload as an empty string token.
pub fn build_submit_request(config: &Config, package_url: &str, source_url: &str) -> (r:
    SubmitRequest)
    ensures
        r.target_url@ == submit_target_spec(config.chief_url@),
        r.payload@ == submit_payload_spec(source_url@, package_url@),
{
    let mut target_url = config.chief_url.as_str().to_owned();
    target_url.append("/api/v1/submit");

    let mut payload = String::new();
    payload.append("{\"sourceUrl\":");
    append_json_string(source_url, &mut payload);
    payload.append(",\"packageUrl\":");
    append_json_string(package_url, &mut payload);
    payload.append("}");
    proof {
        assert(payload@ =~= submit_payload_spec(source_url@, package_url@));
    }

    SubmitRequest { target_url, payload }
}

/// An empty source URL is a valid value, not omitted: for every package URL,
/// the payload built for an empty source still opens with the `sourceUrl`
/// key holding an empty string token.
pub proof fn lemma_empty_source_included(package_url: Seq<char>)
    ensures
        submit_payload_spec(Seq::<char>::empty(), package_url) == "{\"sourceUrl\":\"\",\"packageUrl\":"@
            + json_string(package_url) + "}"@,
{
    reveal_strlit("{\"sourceUrl\":");
    reveal_strlit("\"");
    reveal_strlit(",\"packageUrl\":");
    reveal_strlit("{\"sourceUrl\":\"\",\"packageUrl\":");
    assert(json_escaped(Seq::<char>::empty()) == Seq::<char>::empty());
    assert(submit_payload_spec(Seq::<char>::empty(), package_url) =~= "{\"sourceUrl\":\"\",\"packageUrl\":"@
        + json_string(package_url) + "}"@);
}

} // verus!
