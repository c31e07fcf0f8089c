//! Construction of the outbound request URLs, the local scratch path and the
//! object-store key.

use vstd::prelude::*;
use vstd::string::StringExecFns;

verus! {

/// The messaging platform's file-lookup URL for one media identifier.
pub open spec fn getfile_url_spec(token: Seq<char>, file_id: Seq<char>) -> Seq<char> {
    "https://api.telegram.org/bot"@ + token + "/getFile?file_id="@ + file_id
}

/// The raw download URL derived from a looked-up file path.
pub open spec fn download_url_spec(token: Seq<char>, file_path: Seq<char>) -> Seq<char> {
    "https://api.telegram.org/file/bot"@ + token + "/"@ + file_path
}

/// The scratch location a downloaded rendition is written to, grouped by
/// conversation name.
pub open spec fn local_path_spec(group: Seq<char>, file_id: Seq<char>) -> Seq<char> {
    "photos/"@ + group + "/"@ + file_id + ".jpg"@
}

/// The scratch folder for one conversation's downloads.
pub open spec fn photo_dir_spec(group: Seq<char>) -> Seq<char> {
    "photos/"@ + group
}

/// The object-store key a rendition is uploaded under.
pub open spec fn object_key_spec(group: Seq<char>, file_id: Seq<char>) -> Seq<char> {
    group + "/"@ + file_id + ".jpg"@
}

/// The webhook-registration endpoint for one bot credential.
pub open spec fn webhook_url_spec(token: Seq<char>) -> Seq<char> {
    "https://api.telegram.org/bot"@ + token + "/setWebhook"@
}

pub fn getfile_url(token: &str, file_id: &str) -> (r: String)
    ensures
        r@ == getfile_url_spec(token@, file_id@),
{
    let mut s = String::from_str("https://api.telegram.org/bot");
    s.append(token);
    s.append("/getFile?file_id=");
    s.append(file_id);
    proof {
        assert(s@ =~= getfile_url_spec(token@, file_id@));
    }
    s
}

pub fn download_url(token: &str, file_path: &str) -> (r: String)
    ensures
        r@ == download_url_spec(token@, file_path@),
{
    let mut s = String::from_str("https://api.telegram.org/file/bot");
    s.append(token);
    s.append("/");
    s.append(file_path);
    proof {
        assert(s@ =~= download_url_spec(token@, file_path@));
    }
    s
}

pub fn local_path(group: &str, file_id: &str) -> (r: String)
    ensures
        r@ == local_path_spec(group@, file_id@),
{
    let mut s = String::from_str("photos/");
    s.append(group);
    s.append("/");
    s.append(file_id);
    s.append(".jpg");
    proof {
        assert(s@ =~= local_path_spec(group@, file_id@));
    }
    s
}

pub fn photo_dir(group: &str) -> (r: String)
    ensures
        r@ == photo_dir_spec(group@),
{
    let mut s = String::from_str("photos/");
    s.append(group);
    proof {
        assert(s@ =~= photo_dir_spec(group@));
    }
    s
}

/// A rendition's scratch path lies under its conversation's scratch folder.
pub proof fn lemma_local_path_under_photo_dir(group: Seq<char>, file_id: Seq<char>)
    ensures
        local_path_spec(group, file_id) == photo_dir_spec(group) + "/"@ + file_id + ".jpg"@,
{
    assert(local_path_spec(group, file_id) =~= photo_dir_spec(group) + "/"@ + file_id + ".jpg"@);
}

pub fn object_key(group: &str, file_id: &str) -> (r: String)
    ensures
        r@ == object_key_spec(group@, file_id@),
{
    let mut s = String::from_str("");
    s.append(group);
    s.append("/");
    s.append(file_id);
    s.append(".jpg");
    proof {
        reveal_strlit("");
        assert(s@ =~= object_key_spec(group@, file_id@));
    }
    s
}

/// What one webhook registration sends: the endpoint, and the two form fields.
pub struct WebhookRequest {
    pub url: String,
    pub callback_url: String,
    pub allowed_updates: String,
}

pub fn webhook_request(token: &str, server_url: &str) -> (r: WebhookRequest)
    ensures
        r.url@ == webhook_url_spec(token@),
        r.callback_url@ == server_url@,
        r.allowed_updates@ == "['messages']"@,
{
    let mut s = String::from_str("https://api.telegram.org/bot");
    s.append(token);
    s.append("/setWebhook");
    proof {
        assert(s@ =~= webhook_url_spec(token@));
    }
    WebhookRequest {
        url: s,
        callback_url: String::from_str(server_url),
        allowed_updates: String::from_str("['messages']"),
    }
}

} // verus!
