//! The document upsert protocol. One log event plus an established
//! connection becomes a single atomic store operation, keyed by mission
//! identifier, with create-or-append semantics:
//!
//! - *set-on-insert*: a document created by the operation gets `created_at`,
//!   the wall-clock time of that first write;
//! - *append*: one `{time, level, text}` element is pushed onto the `logs`
//!   array, whether the document is new or old;
//! - *upsert*: a missing document is created rather than failing.
//!
//! [`UpsertCommand`] is the operation as plain values, ready to be carried to
//! the store; [`step_doc`] is its meaning, the store-side evolution of one
//! document, from which the append-only and set-once laws are proved.

use vstd::prelude::*;

verus! {

/// One log event as the entry point receives it: a caller-assigned session
/// key, an opaque severity code, the caller's elapsed time already rendered
/// in its natural decimal form, and the message text.
pub struct LogEvent {
    pub mission_id: String,
    pub level: i32,
    pub time: String,
    pub message: String,
}

/// One element of a document's `logs` array.
pub struct LogEntry {
    pub time: String,
    pub level: i32,
    pub text: String,
}

/// A single create-or-append store operation, as plain values.
pub struct UpsertCommand {
    /// The document key the update is matched on.
    pub mission_id: String,
    /// The creation timestamp the store sets only when it inserts.
    pub created_at: String,
    /// The element pushed onto the `logs` array unconditionally.
    pub entry: LogEntry,
}

/// One persisted document: key, set-once creation timestamp, and the
/// append-only log array.
pub struct LogDocument {
    pub mission_id: String,
    pub created_at: String,
    pub logs: Vec<LogEntry>,
}

/// The mathematical value of a [`LogEntry`].
#[verifier::ext_equal]
pub struct EntryModel {
    pub time: Seq<char>,
    pub level: int,
    pub text: Seq<char>,
}

/// The mathematical value of an [`UpsertCommand`].
#[verifier::ext_equal]
pub struct CmdModel {
    pub mission_id: Seq<char>,
    pub created_at: Seq<char>,
    pub entry: EntryModel,
}

/// The mathematical value of a [`LogDocument`].
#[verifier::ext_equal]
pub struct DocModel {
    pub mission_id: Seq<char>,
    pub created_at: Seq<char>,
    pub logs: Seq<EntryModel>,
}

impl View for LogEntry {
    type V = EntryModel;

    open spec fn view(&self) -> EntryModel {
        EntryModel { time: self.time@, level: self.level as int, text: self.text@ }
    }
}

impl View for UpsertCommand {
    type V = CmdModel;

    open spec fn view(&self) -> CmdModel {
        CmdModel {
            mission_id: self.mission_id@,
            created_at: self.created_at@,
            entry: self.entry@,
        }
    }
}

impl View for LogDocument {
    type V = DocModel;

    open spec fn view(&self) -> DocModel {
        DocModel {
            mission_id: self.mission_id@,
            created_at: self.created_at@,
            logs: self.logs@.map_values(|e: LogEntry| e@),
        }
    }
}

/// The model of a possibly-absent document.
pub open spec fn opt_doc_view(doc: Option<LogDocument>) -> Option<DocModel> {
    match doc {
        None => None,
        Some(d) => Some(d@),
    }
}

/// Translates one received event, with the creation timestamp prepared for a
/// possible first write, into the store operation.
pub fn build_upsert(event: LogEvent, created_at: String) -> (r: UpsertCommand)
    ensures
        r@.mission_id == event.mission_id@,
        r@.created_at == created_at@,
        r@.entry == (EntryModel {
            time: event.time@,
            level: event.level as int,
            text: event.message@,
        }),
{
    UpsertCommand {
        mission_id: event.mission_id,
        created_at,
        entry: LogEntry { time: event.time, level: event.level, text: event.message },
    }
}

/// The store-side meaning of one upsert against one document slot: a missing
/// document is created with the command's creation timestamp and a one-entry
/// log; an existing document keeps its identity and timestamp and has the
/// entry appended.
pub open spec fn step_doc(doc: Option<DocModel>, cmd: CmdModel) -> DocModel {
    match doc {
        None => DocModel {
            mission_id: cmd.mission_id,
            created_at: cmd.created_at,
            logs: seq![cmd.entry],
        },
        Some(d) => DocModel {
            mission_id: d.mission_id,
            created_at: d.created_at,
            logs: d.logs.push(cmd.entry),
        },
    }
}

/// Applies one upsert to a document slot, exactly as the store would.
pub fn apply_upsert(doc: Option<LogDocument>, cmd: UpsertCommand) -> (r: LogDocument)
    ensures
        r@ == step_doc(opt_doc_view(doc), cmd@),
{
    match doc {
        None => {
            let mut logs: Vec<LogEntry> = Vec::new();
            logs.push(cmd.entry);
            let r = LogDocument { mission_id: cmd.mission_id, created_at: cmd.created_at, logs };
            proof {
                assert(r@.logs =~= step_doc(opt_doc_view(None), cmd@).logs);
                assert(r@ =~= step_doc(opt_doc_view(None), cmd@));
            }
            r
        },
        Some(mut d) => {
            let ghost d0 = d;
            d.logs.push(cmd.entry);
            proof {
                assert(d@.logs =~= step_doc(opt_doc_view(Some(d0)), cmd@).logs);
                assert(d@ =~= step_doc(opt_doc_view(Some(d0)), cmd@));
            }
            d
        },
    }
}

/// The document slot after a whole sequence of successful writes, in the
/// order the store serialized them.
pub open spec fn run_doc(doc: Option<DocModel>, cmds: Seq<CmdModel>) -> Option<DocModel>
    decreases cmds.len(),
{
    if cmds.len() == 0 {
        doc
    } else {
        run_doc(Some(step_doc(doc, cmds[0])), cmds.drop_first())
    }
}

/// The log array of a possibly-absent document.
pub open spec fn logs_of(doc: Option<DocModel>) -> Seq<EntryModel> {
    match doc {
        None => Seq::empty(),
        Some(d) => d.logs,
    }
}

/// The creation timestamp of a possibly-absent document; empty where there
/// is no document.
pub open spec fn created_of(doc: Option<DocModel>) -> Seq<char> {
    match doc {
        None => Seq::empty(),
        Some(d) => d.created_at,
    }
}

/// The entries a sequence of commands carries, in order.
pub open spec fn entries_of(cmds: Seq<CmdModel>) -> Seq<EntryModel> {
    cmds.map_values(|c: CmdModel| c.entry)
}

/// Law: the log array is append-only. After any sequence of successful
/// writes the array is exactly the prior array followed by the written
/// entries in write order: nothing already appended is changed, dropped or
/// reordered, and each write adds exactly its own entry.
pub proof fn lemma_append_only(doc: Option<DocModel>, cmds: Seq<CmdModel>)
    ensures
        logs_of(run_doc(doc, cmds)) == logs_of(doc) + entries_of(cmds),
    decreases cmds.len(),
{
    if cmds.len() == 0 {
        assert(logs_of(run_doc(doc, cmds)) =~= logs_of(doc) + entries_of(cmds));
    } else {
        let first = step_doc(doc, cmds[0]);
        lemma_append_only(Some(first), cmds.drop_first());
        assert(first.logs =~= logs_of(doc) + seq![cmds[0].entry]);
        assert(entries_of(cmds.drop_first()) =~= entries_of(cmds).drop_first());
        assert(logs_of(run_doc(doc, cmds)) =~= logs_of(doc) + entries_of(cmds));
    }
}

/// Law: `created_at` is set exactly once. A document that exists keeps its
/// creation timestamp through every further write, and a slot first filled
/// by a write carries the timestamp of that first write from then on.
pub proof fn lemma_created_at_set_once(d: DocModel, cmds: Seq<CmdModel>)
    ensures
        run_doc(Some(d), cmds) is Some,
        created_of(run_doc(Some(d), cmds)) == d.created_at,
        cmds.len() > 0 ==> created_of(run_doc(None, cmds)) == cmds[0].created_at,
    decreases cmds.len(),
{
    if cmds.len() > 0 {
        lemma_created_at_set_once(step_doc(Some(d), cmds[0]), cmds.drop_first());
        lemma_created_at_set_once(step_doc(None, cmds[0]), cmds.drop_first());
    }
}

/// The whole store, one document slot per mission identifier, after one
/// successful write: only the written key's slot steps.
pub open spec fn store_apply(store: Map<Seq<char>, DocModel>, cmd: CmdModel) -> Map<
    Seq<char>,
    DocModel,
> {
    let prior = if store.dom().contains(cmd.mission_id) {
        Some(store[cmd.mission_id])
    } else {
        None
    };
    store.insert(cmd.mission_id, step_doc(prior, cmd))
}

/// Law: writes for different mission identifiers are isolated. A write
/// touches no slot but its own, and whether some other key's write was
/// applied before it or failed and was dropped makes no difference to the
/// document it produces.
pub proof fn lemma_failure_isolation(store: Map<Seq<char>, DocModel>, a: CmdModel, b: CmdModel)
    requires
        a.mission_id != b.mission_id,
    ensures
        store_apply(store, b).dom() == store.dom().insert(b.mission_id),
        forall|k: Seq<char>|
            k != b.mission_id && store.dom().contains(k) ==> #[trigger] store_apply(store, b)[k]
                == store[k],
        store_apply(store_apply(store, a), b)[b.mission_id] == store_apply(store, b)[b.mission_id],
{
    assert(store_apply(store, b).dom() =~= store.dom().insert(b.mission_id));
}

} // verus!
