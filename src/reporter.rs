//! The reporter's side: naming the dump file, and turning what the dump writer
//! produced into the one event that the reporter submits before it exits.
use vstd::prelude::*;
use crate::channel::{is_uuid_char, random_token};
use crate::keyed::{keys_unique, map_of};
use crate::scope::{extra_entries, tag_entries, MirroredScope, ScopeUpdate};

verus! {

/// `std::path::PathBuf`, carried through unopened: the directory of dump files.
#[verifier::external_type_specification]
#[verifier::external_body]
pub struct ExPathBuf(std::path::PathBuf);

/// The extra that marks events raised by the reporter process itself; it is
/// removed from the crash event, which describes the application.
pub const REPORTER_MARKER_KEY: &'static str = "event.process";

/// The marker's value.
pub const REPORTER_MARKER_VALUE: &'static str = "crash-reporter";

/// The extension of dump files.
pub const DUMP_EXTENSION: &'static str = ".dmp";

/// The attachment name used where the dump's path has no file name.
pub const DEFAULT_DUMP_NAME: &'static str = "minidump.dmp";

/// The message of the event sent where the dump has no contents.
pub const EMPTY_DUMP_MESSAGE: &'static str = "the minidump was written without contents";

/// What kind of file an attachment is.
#[derive(Clone, Copy, Debug, PartialEq, Eq)]
pub enum AttachmentType {
    Minidump,
}

/// A file attached to an event.
pub struct Attachment {
    pub buffer: Vec<u8>,
    pub filename: String,
    pub ty: AttachmentType,
}

/// The severity of an event.
#[derive(Clone, Copy, Debug, PartialEq, Eq)]
pub enum Level {
    Fatal,
    Error,
}

/// The event that describes a crash of the application.
pub struct CrashEvent {
    pub level: Level,
    pub user: Option<sentry::protocol::User>,
    pub tags: Vec<(String, String)>,
    pub extras: Vec<(String, serde_json::Value)>,
    pub breadcrumbs: Vec<sentry::protocol::Breadcrumb>,
    pub attachments: Vec<Attachment>,
}

/// The event that the reporter submits.
pub enum ReportEvent {
    /// A crash, with its dump attached.
    Crash(CrashEvent),
    /// A non-fatal error: the dump could not be produced.
    Failure(String),
}

/// What the dump writer produced.
pub enum DumpOutcome {
    /// A file was written; its name, and its contents where they could be read.
    Written { file_name: Option<String>, contents: Option<Vec<u8>> },
    /// No dump was produced; the error's description.
    Failed(String),
}

/// What the reporter does once the dump writer has finished.
pub struct DumpReport {
    pub event: ReportEvent,
    /// Whether the dump file is to be deleted (a failure to delete is ignored).
    pub delete_dump: bool,
}

/// Whether the reporter's serve loop goes on.
#[derive(Clone, Copy, Debug, PartialEq, Eq)]
pub enum LoopAction {
    Continue,
    Exit,
}

/// The name of a dump file: a token and the dump extension.
pub open spec fn dump_file_name_of(token: Seq<char>) -> Seq<char> {
    token + DUMP_EXTENSION@
}

/// `e` is the crash event composed from `scope` and `a`: fatal, with the
/// scope's user, tags and breadcrumbs, its extras without the reporter's
/// marker, and `a` as the one attachment.
pub open spec fn is_crash_event_for(e: CrashEvent, scope: MirroredScope, a: Attachment) -> bool {
    &&& e.level == Level::Fatal
    &&& e.user == scope.user_view()
    &&& keys_unique(tag_entries(e.tags@))
    &&& map_of(tag_entries(e.tags@)) == scope.tag_map()
    &&& keys_unique(extra_entries(e.extras@))
    &&& map_of(extra_entries(e.extras@)) == scope.extra_map().remove(REPORTER_MARKER_KEY@)
    &&& e.breadcrumbs@ == scope.breadcrumb_seq()
    &&& e.attachments@ == seq![a]
}

/// The attachment's name for a dump whose path has `file_name` as its last part.
pub open spec fn attachment_name(file_name: Option<String>) -> Seq<char> {
    match file_name {
        Some(n) => n@,
        None => DEFAULT_DUMP_NAME@,
    }
}

/// The name of a dump file for `token`.
pub fn dump_file_name(token: &str) -> (r: String)
    ensures
        r@ == dump_file_name_of(token@),
{
    let mut r = String::from_str(token);
    r.append(DUMP_EXTENSION);
    r
}

/// A fresh dump file name: a random UUID and the dump extension.
pub fn new_dump_file_name() -> (r: String)
    ensures
        exists|token: Seq<char>|
            token.len() == 36 && (forall|i: int| 0 <= i < token.len() ==> is_uuid_char(#[trigger] token[i]))
                && r@ == dump_file_name_of(token),
{
    let token = random_token();
    dump_file_name(token.as_str())
}

/// The attachment for a dump: its contents under its file name. `None` where
/// either is missing or the contents are empty.
pub fn attachment_from_minidump(contents: Option<Vec<u8>>, file_name: Option<String>) -> (r: Option<
    Attachment,
>)
    ensures
        r is Some <==> (contents is Some && contents->Some_0@.len() > 0 && file_name is Some),
        r is Some ==> r->Some_0.buffer == contents->Some_0 && r->Some_0.filename == file_name->Some_0
            && r->Some_0.ty == AttachmentType::Minidump,
{
    match (contents, file_name) {
        (Some(buffer), Some(filename)) => {
            if buffer.len() > 0 {
                Some(Attachment { buffer, filename, ty: AttachmentType::Minidump })
            } else {
                None
            }
        },
        _ => None,
    }
}

/// The crash event for `scope` with `attachment`: fatal, carrying the scope
/// without the reporter's marker extra.
pub fn compose_crash_event(scope: MirroredScope, attachment: Attachment) -> (r: CrashEvent)
    requires
        scope.wf(),
    ensures
        is_crash_event_for(r, scope, attachment),
{
    let mut scope = scope;
    let marker = String::from_str(REPORTER_MARKER_KEY);
    scope.apply(ScopeUpdate::RemoveExtra(marker));
    let (user, tags, extras, breadcrumbs) = scope.into_parts();
    let mut attachments: Vec<Attachment> = Vec::new();
    attachments.push(attachment);
    assert(attachments@ =~= seq![attachment]);
    CrashEvent { level: Level::Fatal, user, tags, extras, breadcrumbs, attachments }
}

/// Holds where the reporter writes its dump files.
pub struct Handler {
    crashes_dir: std::path::PathBuf,
}

impl Handler {
    pub closed spec fn crashes_dir_view(&self) -> std::path::PathBuf {
        self.crashes_dir
    }

    /// A handler that writes its dumps under `crashes_dir`.
    pub fn new(crashes_dir: std::path::PathBuf) -> (r: Handler)
        ensures
            r.crashes_dir_view() == crashes_dir,
    {
        Handler { crashes_dir }
    }

    /// The directory that holds the dump files.
    pub fn crashes_dir(&self) -> (r: &std::path::PathBuf)
        ensures
            *r == self.crashes_dir_view(),
    {
        &self.crashes_dir
    }

    /// Decides what follows a dump: where the writer produced non-empty
    /// contents, a fatal crash event with the dump attached and the mirrored
    /// scope merged in; where the contents are missing or empty, or the writer
    /// failed, a non-fatal error event. A written file is deleted afterwards.
    /// The serve loop exits in every case.
    pub fn on_minidump_created(&self, scope: MirroredScope, outcome: DumpOutcome) -> (r: (DumpReport, LoopAction))
        requires
            scope.wf(),
        ensures
            r.1 == LoopAction::Exit,
            match outcome {
                DumpOutcome::Written { file_name, contents } => {
                    &&& r.0.delete_dump
                    &&& if contents is Some && contents->Some_0@.len() > 0 {
                        &&& r.0.event is Crash
                        &&& is_crash_event_for(
                            r.0.event->Crash_0,
                            scope,
                            r.0.event->Crash_0.attachments@[0],
                        )
                        &&& r.0.event->Crash_0.attachments@[0].buffer == contents->Some_0
                        &&& r.0.event->Crash_0.attachments@[0].filename@ == attachment_name(file_name)
                        &&& r.0.event->Crash_0.attachments@[0].ty == AttachmentType::Minidump
                    } else {
                        r.0.event is Failure && r.0.event->Failure_0@ == EMPTY_DUMP_MESSAGE@
                    }
                },
                DumpOutcome::Failed(message) => {
                    &&& !r.0.delete_dump
                    &&& r.0.event is Failure
                    &&& r.0.event->Failure_0 == message
                },
            },
    {
        match outcome {
            DumpOutcome::Written { file_name, contents } => {
                let name = match file_name {
                    Some(n) => n,
                    None => String::from_str(DEFAULT_DUMP_NAME),
                };
                let event = match attachment_from_minidump(contents, Some(name)) {
                    Some(a) => ReportEvent::Crash(compose_crash_event(scope, a)),
                    None => ReportEvent::Failure(String::from_str(EMPTY_DUMP_MESSAGE)),
                };
                (DumpReport { event, delete_dump: true }, LoopAction::Exit)
            },
            DumpOutcome::Failed(message) => (
                DumpReport { event: ReportEvent::Failure(message), delete_dump: false },
                LoopAction::Exit,
            ),
        }
    }

    /// A client that disconnects without asking for a dump ends the serve
    /// loop; no event is produced.
    pub fn on_client_disconnected(&self, num_clients: usize) -> (r: LoopAction)
        ensures
            r == LoopAction::Exit,
    {
        LoopAction::Exit
    }
}

} // verus!
