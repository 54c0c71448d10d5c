//! The guarantees the registries give, stated once for every registry
//! mapping and proved from the spec functions the contracts use.

use vstd::prelude::*;

use crate::command::execute_spec;
use crate::command::CmdView;
use crate::command::ErrorKind;
use crate::registry::resolve_spec;

verus! {

/// Resolving a registered name yields the command registered under it,
/// and executing that command yields an error.
pub proof fn lemma_registered_execute_errors(m: Map<Seq<char>, CmdView>, name: Seq<char>)
    requires
        m.contains_key(name),
    ensures
        resolve_spec(m, name) == m[name],
        execute_spec(m[name]) == Err::<(), ErrorKind>(ErrorKind::UnknownCommand),
{
}

/// Resolving an unregistered name yields the null command, whose
/// execution errors as well: a lookup never fails to produce a command.
pub proof fn lemma_unregistered_resolves_to_null(m: Map<Seq<char>, CmdView>, name: Seq<char>)
    requires
        !m.contains_key(name),
    ensures
        resolve_spec(m, name) == CmdView::Null,
        execute_spec(resolve_spec(m, name)) == Err::<(), ErrorKind>(ErrorKind::UnknownCommand),
{
}

/// Under the present placeholder behaviour, resolving any two names —
/// registered or not — errors identically.
pub proof fn lemma_resolutions_error_identically(
    m: Map<Seq<char>, CmdView>,
    name1: Seq<char>,
    name2: Seq<char>,
)
    ensures
        execute_spec(resolve_spec(m, name1)) is Err,
        execute_spec(resolve_spec(m, name1)) == execute_spec(resolve_spec(m, name2)),
{
}

} // verus!
