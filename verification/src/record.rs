//! The metadata record written for each handled update, and the fixed-timezone
//! timestamp that keys it.

use vstd::prelude::*;
use vstd::string::StringExecFns;
use crate::model::{Chat, Message, project_id_spec, project_id_of};

verus! {

/// What chrono formats for one epoch second: the `YYYY-MM-DDTHH:MM:SSZ`
/// rendering of that instant in the Singapore timezone. The rendering depends
/// on the epoch second alone.
pub uninterp spec fn singapore_iso_of(secs: int) -> Seq<char>;

/// The first and last epoch second whose date chrono's calendar can represent:
/// the day count `secs.div_euclid(86400) + 719163` must reach a year in
/// `-262143..=262142`, which holds exactly for these seconds.
pub const EPOCH_SECS_MIN: i64 = -8334601228800;

pub const EPOCH_SECS_MAX: i64 = 8210266876799;

/// Whether the calendar has a date for this epoch second, so that the
/// timezone conversion answers.
pub open spec fn timestamp_in_range(secs: int) -> bool {
    EPOCH_SECS_MIN as int <= secs <= EPOCH_SECS_MAX as int
}

/// Relies on chrono's `DateTime::from_timestamp` (with zero nanoseconds) and
/// chrono-tz's `Asia::Singapore` conversion: `from_timestamp` returns `Some`
/// exactly when the derived proleptic-Gregorian day count lies in the
/// calendar's range — the seconds between `EPOCH_SECS_MIN` and
/// `EPOCH_SECS_MAX` — and the formatted result is a function of the epoch
/// second alone.
#[verifier::external_body]
fn format_in_singapore(secs: i64) -> (r: Option<String>)
    ensures
        r is Some <==> timestamp_in_range(secs as int),
        r matches Some(s) ==> s@ == singapore_iso_of(secs as int),
{
    chrono::DateTime::from_timestamp(secs, 0).map(
        |dt|
            dt.with_timezone(&chrono_tz::Asia::Singapore).format("%Y-%m-%dT%H:%M:%SZ").to_string(),
    )
}

/// The timestamp actually recorded, given what the timezone conversion came
/// back with: the formatted instant when there is one, and empty otherwise.
pub fn timestamp_or_empty(t: Option<String>) -> (r: String)
    ensures
        t matches Some(s) ==> r@ == s@,
        t is None ==> r@ == Seq::<char>::empty(),
{
    match t {
        Some(s) => s,
        None => String::new(),
    }
}

/// The timestamp component of the sort key for one message date: the
/// fixed-timezone rendering, and empty exactly when the epoch second is out
/// of the calendar's range.
pub fn timestamp_string(secs: i64) -> (r: String)
    ensures
        timestamp_in_range(secs as int) ==> r@ == singapore_iso_of(secs as int),
        !timestamp_in_range(secs as int) ==> r@ == Seq::<char>::empty(),
{
    timestamp_or_empty(format_in_singapore(secs))
}

/// The composite sort key: conversation identifier, `#`, timestamp.
pub open spec fn sort_key_spec(c: Chat, ts: Seq<char>) -> Seq<char> {
    project_id_spec(c) + "#"@ + ts
}

pub fn sort_key(chat: &Chat, ts: &str) -> (r: String)
    ensures
        r@ == sort_key_spec(*chat, ts@),
{
    let mut s = project_id_of(chat);
    s.append("#");
    s.append(ts);
    proof {
        assert(s@ =~= sort_key_spec(*chat, ts@));
    }
    s
}

/// One persisted metadata record. Optional fields are `None` when absent or
/// empty, and are then omitted from the stored item rather than written as
/// empty strings.
pub struct StoredRecord {
    pub company_name: String,
    pub sort_key: String,
    pub message_id: i64,
    pub text: Option<String>,
    pub image_path: Option<String>,
    pub caption: Option<String>,
}

/// An optional field as it is kept in a record: dropped when absent or empty.
pub open spec fn kept_field(o: Option<Seq<char>>) -> Option<Seq<char>> {
    match o {
        Some(s) => if s.len() > 0 {
            Some(s)
        } else {
            None
        },
        None => None,
    }
}

fn keep_nonempty(o: &Option<String>) -> (r: Option<String>)
    ensures
        r.deep_view() == kept_field(o.deep_view()),
{
    match o {
        Some(s) => if s.as_str().is_empty() {
            None
        } else {
            Some(s.clone())
        },
        None => None,
    }
}

/// Builds the record for a message once the timestamp component is known.
pub fn build_record(message: &Message, storage_ref: &str, ts: &str) -> (r: StoredRecord)
    ensures
        r.company_name@ == "TestCompany"@,
        r.sort_key@ == sort_key_spec(message.chat, ts@),
        r.message_id == message.message_id,
        r.text.deep_view() == kept_field(message.text.deep_view()),
        r.image_path.deep_view() == kept_field(Some(storage_ref@)),
        r.caption.deep_view() == kept_field(message.caption.deep_view()),
{
    let image_path: Option<String> = if storage_ref.is_empty() {
        None
    } else {
        Some(String::from_str(storage_ref))
    };
    StoredRecord {
        company_name: String::from_str("TestCompany"),
        sort_key: sort_key(&message.chat, ts),
        message_id: message.message_id,
        text: keep_nonempty(&message.text),
        image_path,
        caption: keep_nonempty(&message.caption),
    }
}

/// Builds the record for a message, converting its date into the fixed
/// timezone. The timestamp component is empty exactly when the conversion has
/// no answer for the date.
pub fn build_message_record(message: &Message, storage_ref: &str) -> (r: StoredRecord)
    ensures
        r.company_name@ == "TestCompany"@,
        r.sort_key@ == sort_key_spec(
            message.chat,
            if timestamp_in_range(message.date as int) {
                singapore_iso_of(message.date as int)
            } else {
                Seq::<char>::empty()
            },
        ),
        r.message_id == message.message_id,
        r.text.deep_view() == kept_field(message.text.deep_view()),
        r.image_path.deep_view() == kept_field(Some(storage_ref@)),
        r.caption.deep_view() == kept_field(message.caption.deep_view()),
{
    let ts = timestamp_string(message.date);
    build_record(message, storage_ref, ts.as_str())
}

} // verus!
