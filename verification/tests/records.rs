use tg_ingest::model::{Chat, Message, PrivateChat, Sender, SupergroupChat};
use tg_ingest::record::{
    build_message_record, build_record, sort_key, timestamp_string, EPOCH_SECS_MAX, EPOCH_SECS_MIN,
};

fn sender() -> Sender {
    Sender {
        id: 42,
        is_bot: false,
        first_name: String::from("Ada"),
        username: String::from("ada"),
        language_code: String::from("en"),
    }
}

fn message(chat: Chat, date: i64, text: Option<&str>, caption: Option<&str>) -> Message {
    Message {
        message_id: 77,
        from: sender(),
        chat,
        date,
        text: text.map(String::from),
        photo: None,
        caption: caption.map(String::from),
    }
}

fn eng_supergroup() -> Chat {
    Chat::Supergroup(SupergroupChat {
        id: 555,
        title: String::from("Eng"),
        chat_type: String::from("supergroup"),
    })
}

#[test]
fn composite_sort_key_for_supergroup() {
    let m = message(eng_supergroup(), 1700000000, None, None);
    let r = build_message_record(&m, "");
    assert_eq!(r.sort_key, "555#2023-11-15T06:13:20Z");
    assert_eq!(r.company_name, "TestCompany");
    assert_eq!(r.message_id, 77);
}

#[test]
fn timestamp_is_rendered_in_the_fixed_timezone() {
    assert_eq!(timestamp_string(1700000000), "2023-11-15T06:13:20Z");
    assert_eq!(timestamp_string(1000000000), "2001-09-09T09:46:40Z");
}

#[test]
fn private_chat_has_empty_conversation_component() {
    let m = message(
        Chat::Private(PrivateChat {
            id: 7,
            first_name: String::from("Ada"),
            username: String::from("ada"),
            chat_type: String::from("private"),
        }),
        1700000000,
        None,
        None,
    );
    let r = build_message_record(&m, "");
    assert_eq!(r.sort_key, "#2023-11-15T06:13:20Z");
}

#[test]
fn negative_conversation_id_is_rendered_with_sign() {
    let m = message(
        Chat::Supergroup(SupergroupChat {
            id: -1001234567890,
            title: String::from("Eng"),
            chat_type: String::from("supergroup"),
        }),
        1700000000,
        None,
        None,
    );
    let r = build_message_record(&m, "");
    assert_eq!(r.sort_key, "-1001234567890#2023-11-15T06:13:20Z");
}

#[test]
fn empty_optional_fields_are_omitted() {
    let m = message(eng_supergroup(), 1700000000, Some(""), Some(""));
    let r = build_message_record(&m, "");
    assert!(r.text.is_none());
    assert!(r.image_path.is_none());
    assert!(r.caption.is_none());
}

#[test]
fn nonempty_optional_fields_are_kept() {
    let m = message(eng_supergroup(), 1700000000, Some("hello"), Some("a caption"));
    let r = build_message_record(&m, "Eng/two.jpg");
    assert_eq!(r.text.as_deref(), Some("hello"));
    assert_eq!(r.image_path.as_deref(), Some("Eng/two.jpg"));
    assert_eq!(r.caption.as_deref(), Some("a caption"));
}

#[test]
fn replay_is_not_deduplicated() {
    // Replaying the same update builds a second record identical to the first:
    // nothing in a record tells a replay from a first delivery, so a second
    // write under the same key happens; this is the accepted trade-off.
    let m = message(eng_supergroup(), 1700000000, Some("hello"), None);
    let first = build_message_record(&m, "Eng/two.jpg");
    let second = build_message_record(&m, "Eng/two.jpg");
    assert_eq!(first.sort_key, second.sort_key);
    assert_eq!(first.company_name, second.company_name);
    assert_eq!(first.message_id, second.message_id);
    assert_eq!(first.text, second.text);
    assert_eq!(first.image_path, second.image_path);
    assert_eq!(first.caption, second.caption);
}

#[test]
fn sort_key_concatenates_id_hash_timestamp() {
    let chat = eng_supergroup();
    let k = sort_key(&chat, "2023-11-15T06:13:20Z");
    assert_eq!(k, "555#2023-11-15T06:13:20Z");
}

#[test]
fn record_with_explicit_timestamp() {
    let m = message(eng_supergroup(), 1700000000, None, None);
    let r = build_record(&m, "Eng/p.jpg", "2023-11-15T06:13:20Z");
    assert_eq!(r.sort_key, "555#2023-11-15T06:13:20Z");
    assert_eq!(r.image_path.as_deref(), Some("Eng/p.jpg"));
}

#[test]
fn timestamp_is_empty_exactly_outside_the_calendar_range() {
    // Inside the range the conversion answers, even at the very edges.
    assert!(!timestamp_string(EPOCH_SECS_MIN).is_empty());
    assert!(!timestamp_string(EPOCH_SECS_MAX).is_empty());
    // One second beyond either edge, it does not.
    assert_eq!(timestamp_string(EPOCH_SECS_MIN - 1), "");
    assert_eq!(timestamp_string(EPOCH_SECS_MAX + 1), "");
    assert_eq!(timestamp_string(i64::MIN), "");
    assert_eq!(timestamp_string(i64::MAX), "");
}

#[test]
fn out_of_range_date_yields_empty_timestamp_component() {
    let m = message(eng_supergroup(), i64::MAX, None, None);
    let r = build_message_record(&m, "");
    assert_eq!(r.sort_key, "555#");
}
