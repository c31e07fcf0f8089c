//! The update-handling pipeline: what one inbound update plans, how each
//! planned rendition is stepped through, and the fixed acknowledgment.
//!
//! The handler tolerates every downstream failure: a rendition whose URL
//! cannot be resolved, whose download fails or whose upload fails is skipped,
//! the remaining renditions are still attempted, and the response never
//! changes.

use vstd::prelude::*;
use vstd::string::StringExecFns;
use crate::model::{Message, Photo, TelegramUpdate, group_name_spec, group_name_of};
use crate::photos::{allowed_photos, filter_photos};
use crate::urls::{
    getfile_url_spec, getfile_url, download_url_spec, download_url, local_path_spec, local_path,
    object_key_spec, object_key,
};
use crate::record::kept_field;

verus! {

/// Everything one retained rendition needs from the update: its identifier,
/// the lookup URL, the scratch path and the object-store key.
pub struct PhotoTask {
    pub file_id: String,
    pub getfile_url: String,
    pub local_path: String,
    pub object_key: String,
}

impl Clone for PhotoTask {
    fn clone(&self) -> (r: Self)
        ensures
            r == *self,
    {
        PhotoTask {
            file_id: self.file_id.clone(),
            getfile_url: self.getfile_url.clone(),
            local_path: self.local_path.clone(),
            object_key: self.object_key.clone(),
        }
    }
}

/// The task derived from one rendition, for a given bot credential and
/// conversation name.
pub open spec fn task_for(t: PhotoTask, token: Seq<char>, group: Seq<char>, p: Photo) -> bool {
    &&& t.file_id@ == p.file_id@
    &&& t.getfile_url@ == getfile_url_spec(token, p.file_id@)
    &&& t.local_path@ == local_path_spec(group, p.file_id@)
    &&& t.object_key@ == object_key_spec(group, p.file_id@)
}

/// The renditions an update schedules for processing: the retained widths of
/// its photo sequence, and none when it carries no photos.
pub open spec fn planned_photos(m: Message) -> Seq<Photo> {
    match m.photo {
        Some(ps) => allowed_photos(ps@),
        None => Seq::empty(),
    }
}

/// What the handler decides for one update before any outbound call is made.
pub struct UpdatePlan {
    pub group_name: String,
    pub text: Option<String>,
    pub caption: Option<String>,
    pub tasks: Vec<PhotoTask>,
}

pub open spec fn plan_ok(r: UpdatePlan, u: TelegramUpdate, token: Seq<char>) -> bool {
    &&& r.group_name@ == group_name_spec(u.message.chat)
    &&& r.text.deep_view() == kept_field(u.message.text.deep_view())
    &&& r.caption.deep_view() == kept_field(u.message.caption.deep_view())
    &&& r.tasks@.len() == planned_photos(u.message).len()
    &&& forall|i: int|
        0 <= i < r.tasks@.len() ==> task_for(
            #[trigger] r.tasks@[i],
            token,
            group_name_spec(u.message.chat),
            planned_photos(u.message)[i],
        )
}

fn tasks_for_photos(photos: &Vec<Photo>, token: &str, group: &str) -> (r: Vec<PhotoTask>)
    ensures
        r@.len() == allowed_photos(photos@).len(),
        forall|i: int|
            0 <= i < r@.len() ==> task_for(
                #[trigger] r@[i],
                token@,
                group@,
                allowed_photos(photos@)[i],
            ),
{
    let retained = filter_photos(photos);
    let mut r: Vec<PhotoTask> = Vec::new();
    let mut i: usize = 0;
    while i < retained.len()
        invariant
            i <= retained.len(),
            retained@ == allowed_photos(photos@),
            r@.len() == i,
            forall|j: int|
                0 <= j < i ==> task_for(#[trigger] r@[j], token@, group@, retained@[j]),
        decreases retained.len() - i,
    {
        let p = &retained[i];
        r.push(
            PhotoTask {
                file_id: p.file_id.clone(),
                getfile_url: getfile_url(token, p.file_id.as_str()),
                local_path: local_path(group, p.file_id.as_str()),
                object_key: object_key(group, p.file_id.as_str()),
            },
        );
        i = i + 1;
    }
    r
}

fn keep_nonempty(o: &Option<String>) -> (r: Option<String>)
    ensures
        r.deep_view() == kept_field(o.deep_view()),
{
    match o {
        Some(s) => if s.as_str().is_empty() {
            None
        } else {
            Some(s.clone())
        },
        None => None,
    }
}

/// Decides everything the update asks for: the conversation name, the text and
/// caption worth recording, and one task per retained rendition. Makes no
/// outbound call itself.
pub fn plan_update(u: &TelegramUpdate, bot_token: &str) -> (r: UpdatePlan)
    ensures
        plan_ok(r, *u, bot_token@),
{
    let group_name = group_name_of(&u.message.chat);
    let tasks = match &u.message.photo {
        Some(photos) => tasks_for_photos(photos, bot_token, group_name.as_str()),
        None => Vec::new(),
    };
    UpdatePlan {
        group_name,
        text: keep_nonempty(&u.message.text),
        caption: keep_nonempty(&u.message.caption),
        tasks,
    }
}

/// The acknowledgment body sent for every structurally valid update.
pub open spec fn response_body_spec() -> Seq<char> {
    "Update received successfully"@
}

pub fn response_body() -> (r: String)
    ensures
        r@ == response_body_spec(),
{
    String::from_str("Update received successfully")
}

/// The health-check body.
pub fn health_body() -> (r: String)
    ensures
        r@ == "OK"@,
{
    String::from_str("OK")
}

/// Handles one update: the plan to carry out, and the acknowledgment to send.
/// The acknowledgment is the fixed success body whatever the update holds and
/// whatever later becomes of the plan's tasks.
pub fn handle_update(u: &TelegramUpdate, bot_token: &str) -> (r: (UpdatePlan, String))
    ensures
        plan_ok(r.0, *u, bot_token@),
        r.1@ == response_body_spec(),
{
    (plan_update(u, bot_token), response_body())
}

/// Decides a rendition's download from what the file lookup came back with:
/// skipped exactly when no file path was found, and otherwise fetched from the
/// derived raw-download URL.
pub fn resolve_download(bot_token: &str, file_path: Option<String>) -> (r: Option<String>)
    ensures
        r is None <==> file_path is None,
        file_path matches Some(p) ==> (r matches Some(d) && d@ == download_url_spec(
            bot_token@,
            p@,
        )),
{
    match file_path {
        Some(p) => Some(download_url(bot_token, p.as_str())),
        None => None,
    }
}

/// How one task ended. Every variant is tolerated.
pub enum PhotoOutcome {
    /// The file lookup returned no path.
    UrlMissing,
    /// The download or the local write failed.
    FetchFailed,
    /// The object-store upload failed; the rendition has no storage reference.
    UploadFailed,
    /// Uploaded under this object key.
    Uploaded(String),
}

/// The storage reference a record carries for an outcome: the object key of a
/// completed upload, and nothing otherwise.
pub fn storage_ref_of(outcome: &PhotoOutcome) -> (r: Option<&String>)
    ensures
        (match *outcome {
            PhotoOutcome::Uploaded(k) => r matches Some(rk) && *rk == k,
            _ => r is None,
        }),
{
    match outcome {
        PhotoOutcome::Uploaded(k) => Some(k),
        _ => None,
    }
}

/// A walk through one update's tasks: the schedule, how far it has come, and
/// the storage reference the update's record will carry — the key of the most
/// recent completed upload, if any.
pub struct Session {
    pub tasks: Vec<PhotoTask>,
    pub next: usize,
    pub storage_ref: Option<String>,
}

/// Where a session stands after one more outcome: one task further on, the
/// schedule untouched, and the storage reference updated only by a completed
/// upload. The schedule and the position move the same way for every outcome.
pub open spec fn advanced(s: Session, o: PhotoOutcome) -> Session {
    Session {
        tasks: s.tasks,
        next: (s.next + 1) as usize,
        storage_ref: match o {
            PhotoOutcome::Uploaded(k) => Some(k),
            _ => s.storage_ref,
        },
    }
}

impl Session {
    pub open spec fn wf(self) -> bool {
        self.next <= self.tasks@.len()
    }

    pub fn begin(plan: UpdatePlan) -> (s: Session)
        ensures
            s.wf(),
            s.tasks == plan.tasks,
            s.next == 0,
            s.storage_ref is None,
    {
        Session { tasks: plan.tasks, next: 0, storage_ref: None }
    }

    /// The task to attempt now, if any is left.
    pub fn current(&self) -> (r: Option<&PhotoTask>)
        requires
            self.wf(),
        ensures
            r is Some <==> self.next < self.tasks@.len(),
            r matches Some(t) ==> *t == self.tasks@[self.next as int],
    {
        if self.next < self.tasks.len() {
            Some(&self.tasks[self.next])
        } else {
            None
        }
    }

    /// Notes how the current task ended and moves to the next one. The
    /// schedule and the position afterwards do not depend on the outcome, so
    /// no failure can starve a later rendition; only a completed upload
    /// touches the storage reference.
    pub fn advance(&mut self, outcome: PhotoOutcome)
        requires
            old(self).wf(),
            old(self).next < old(self).tasks@.len(),
        ensures
            *final(self) == advanced(*old(self), outcome),
            final(self).wf(),
    {
        match outcome {
            PhotoOutcome::Uploaded(k) => {
                self.storage_ref = Some(k);
            },
            _ => {},
        }
        let n = self.tasks.len();
        assert(self.next < n);
        self.next = self.next + 1;
    }
}

/// The tasks a session has still to attempt.
pub open spec fn remaining(s: Session) -> Seq<PhotoTask> {
    s.tasks@.subrange(s.next as int, s.tasks@.len() as int)
}

/// Whether a plan holds anything worth a metadata record: recordable text or
/// caption, or at least one scheduled rendition. When it does not, no record
/// is written for the update.
pub fn plan_warrants_record(plan: &UpdatePlan) -> (r: bool)
    ensures
        r == (plan.text is Some || plan.caption is Some || plan.tasks@.len() > 0),
{
    plan.text.is_some() || plan.caption.is_some() || plan.tasks.len() > 0
}

/// An update with no text, no caption and no photos plans nothing: no recorded
/// fields, no outbound media work, and no metadata record. Together with the
/// unconditional acknowledgment clause of `handle_update`, such an update gets
/// the fixed success body and causes no downstream call.
pub proof fn lemma_quiet_update_plans_nothing(r: UpdatePlan, u: TelegramUpdate, token: Seq<char>)
    requires
        plan_ok(r, u, token),
        u.message.text is None,
        u.message.caption is None,
        u.message.photo is None,
    ensures
        r.tasks@.len() == 0,
        r.text is None,
        r.caption is None,
        !(r.text is Some || r.caption is Some || r.tasks@.len() > 0),
{
}

/// Any outcome moves a session past exactly its current task: the schedule is
/// untouched and the remaining tasks lose only their first entry, so a missing
/// URL, a failed download or a failed upload steps the session exactly as a
/// success does. No failure can starve a later rendition, and none can touch
/// the acknowledgment, which `handle_update` fixes before any task runs.
pub proof fn lemma_no_outcome_starves_later_tasks(s: Session, o: PhotoOutcome)
    requires
        s.wf(),
        s.next < s.tasks@.len(),
    ensures
        advanced(s, o).tasks == s.tasks,
        advanced(s, o).next == s.next + 1,
        remaining(advanced(s, o)) == remaining(s).drop_first(),
{
    broadcast use vstd::std_specs::vec::axiom_spec_len;

    assert(s.tasks.len() == s.tasks@.len());
    assert(remaining(advanced(s, o)) =~= remaining(s).drop_first());
}

} // verus!
