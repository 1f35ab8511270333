//! The hot-reload step: which file-system events make the watcher
//! reload the configuration, and what one such step does to the store.
//!
//! The surrounding process owns the watch itself; on each event it reads
//! the configuration file (or finds it unreadable) and hands the event
//! kind and the text here.

use vstd::prelude::*;

use crate::config::{record_of, ProtalConfig};
use crate::parse::parse_doc;
use crate::store::ConfigStore;

verus! {

/// The kind of a file-system event seen on the configuration directory.
#[derive(Debug, Clone, Copy, PartialEq, Eq, Structural)]
pub enum WatchEventKind {
    Any,
    Access,
    Create,
    Modify,
    Remove,
    Other,
}

/// Only create and modify events make the watcher reload.
pub open spec fn triggers_reload(k: WatchEventKind) -> bool {
    k is Create || k is Modify
}

/// Whether this event kind makes the watcher reload.
pub fn event_triggers_reload(kind: &WatchEventKind) -> (r: bool)
    ensures
        r == triggers_reload(*kind),
{
    matches!(kind, WatchEventKind::Create | WatchEventKind::Modify)
}

/// One watcher step. On a create or modify event the configuration is
/// rebuilt from scratch from the file's text (or from its absence) and
/// published whole; any other event leaves the store untouched. A call
/// that already took its snapshot is unaffected either way.
pub fn handle_event(store: &mut ConfigStore, kind: &WatchEventKind, source: Option<&str>)
    ensures
        triggers_reload(*kind) ==> final (store).record()@ == record_of(
            match source {
                Option::None => Option::None,
                Option::Some(s) => parse_doc(s@),
            },
        ),
        !triggers_reload(*kind) ==> *final (store) == *old(store),
{
    if event_triggers_reload(kind) {
        let record = ProtalConfig::load(source);
        store.replace(record);
    }
}

} // verus!
