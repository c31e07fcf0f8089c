use tg_ingest::digits::{i64_to_string, u64_to_string};
use tg_ingest::urls::{download_url, getfile_url, local_path, object_key, webhook_request};

#[test]
fn decimal_rendering_of_small_values() {
    assert_eq!(u64_to_string(0), "0");
    assert_eq!(u64_to_string(7), "7");
    assert_eq!(u64_to_string(10), "10");
    assert_eq!(u64_to_string(555), "555");
}

#[test]
fn decimal_rendering_of_extremes() {
    assert_eq!(u64_to_string(u64::MAX), "18446744073709551615");
    assert_eq!(i64_to_string(i64::MAX), "9223372036854775807");
    assert_eq!(i64_to_string(i64::MIN), "-9223372036854775808");
    assert_eq!(i64_to_string(-1), "-1");
    assert_eq!(i64_to_string(0), "0");
}

#[test]
fn getfile_url_is_built_from_token_and_identifier() {
    assert_eq!(
        getfile_url("123:abc", "AgAC"),
        "https://api.telegram.org/bot123:abc/getFile?file_id=AgAC"
    );
}

#[test]
fn download_url_is_built_from_token_and_path() {
    assert_eq!(
        download_url("123:abc", "photos/file_9.jpg"),
        "https://api.telegram.org/file/bot123:abc/photos/file_9.jpg"
    );
}

#[test]
fn local_path_groups_by_conversation() {
    assert_eq!(local_path("Eng", "AgAC"), "photos/Eng/AgAC.jpg");
}

#[test]
fn object_key_is_conversation_then_identifier() {
    assert_eq!(object_key("Eng", "AgAC"), "Eng/AgAC.jpg");
}

#[test]
fn webhook_registration_request_fields() {
    let r = webhook_request("123:abc", "https://example.invalid/hook");
    assert_eq!(r.url, "https://api.telegram.org/bot123:abc/setWebhook");
    assert_eq!(r.callback_url, "https://example.invalid/hook");
    assert_eq!(r.allowed_updates, "['messages']");
}
