//! The decisions of the interactive session: reading the menu answers and
//! deciding, per choice, whether a node connection must be made first. The
//! prompting, reading and network work happen outside the library, which
//! drives this machine with the parsed answers.

use vstd::prelude::*;
use vstd::string::StrSliceExecFns;

verus! {

/// One menu selection, or anything unrecognized.
#[derive(Clone, Copy, Debug, PartialEq, Eq, Structural)]
pub enum MenuChoice {
    CreateWallet,
    CheckBalance,
    SendTransaction,
    Exit,
    Invalid,
}

pub open spec fn spec_menu_choice(s: Seq<char>) -> MenuChoice {
    if s == seq!['1'] {
        MenuChoice::CreateWallet
    } else if s == seq!['2'] {
        MenuChoice::CheckBalance
    } else if s == seq!['3'] {
        MenuChoice::SendTransaction
    } else if s == seq!['4'] {
        MenuChoice::Exit
    } else {
        MenuChoice::Invalid
    }
}

/// Read a (trimmed) menu answer: "1" through "4", anything else is invalid.
pub fn parse_menu_choice(s: &str) -> (r: MenuChoice)
    ensures
        r == spec_menu_choice(s@),
{
    let n = s.unicode_len();
    if n != 1 {
        assert(s@ != seq!['1'] && s@ != seq!['2'] && s@ != seq!['3'] && s@ != seq!['4']);
        return MenuChoice::Invalid;
    }
    let c = s.get_char(0);
    if c == '1' {
        assert(s@ =~= seq!['1']);
        MenuChoice::CreateWallet
    } else if c == '2' {
        assert(s@ =~= seq!['2']);
        MenuChoice::CheckBalance
    } else if c == '3' {
        assert(s@ =~= seq!['3']);
        MenuChoice::SendTransaction
    } else if c == '4' {
        assert(s@ =~= seq!['4']);
        MenuChoice::Exit
    } else {
        assert(s@ != seq!['1'] && s@ != seq!['2'] && s@ != seq!['3'] && s@ != seq!['4']);
        MenuChoice::Invalid
    }
}

pub open spec fn spec_is_yes(s: Seq<char>) -> bool {
    s == seq!['y'] || s == seq!['Y']
}

/// Whether a (trimmed) answer means yes: "y" in either case.
pub fn parse_yes(s: &str) -> (r: bool)
    ensures
        r == spec_is_yes(s@),
{
    let n = s.unicode_len();
    if n != 1 {
        assert(s@ != seq!['y'] && s@ != seq!['Y']);
        return false;
    }
    let c = s.get_char(0);
    if c == 'y' || c == 'Y' {
        assert(s@ =~= seq![c]);
        true
    } else {
        assert(s@ != seq!['y'] && s@ != seq!['Y']);
        false
    }
}

/// The session's own state: whether one node is reused for all operations,
/// and whether a client currently exists.
#[derive(Clone, Copy, Debug, PartialEq, Eq, Structural)]
pub struct SessionState {
    pub use_same_node: bool,
    pub has_client: bool,
}

/// What the caller must do for one loop turn.
#[derive(Clone, Copy, Debug, PartialEq, Eq, Structural)]
pub enum SessionAction {
    /// Generate and display a wallet; no node is involved.
    CreateWallet,
    /// Fetch a balance, connecting to a freshly named node first when asked.
    FetchBalance { connect_first: bool },
    /// Send a transaction, connecting first in the same way.
    SendTransaction { connect_first: bool },
    /// Leave the loop.
    Exit,
    /// Report an unrecognized choice and ask again.
    Invalid,
}

/// Session start: when one node serves all operations, a client is made
/// right away; otherwise each network choice connects on its own.
pub fn session_begin(use_same_node: bool) -> (st: SessionState)
    ensures
        st.use_same_node == use_same_node,
        st.has_client == use_same_node,
{
    SessionState { use_same_node, has_client: use_same_node }
}

/// The per-turn decision: network choices connect first exactly when the
/// session does not reuse one node, after which a client exists; the other
/// choices leave the state alone.
pub open spec fn spec_session_step(st: SessionState, choice: MenuChoice) -> (SessionState,
    SessionAction,
) {
    match choice {
        MenuChoice::CreateWallet => (st, SessionAction::CreateWallet),
        MenuChoice::CheckBalance => (
            SessionState { has_client: st.has_client || !st.use_same_node, ..st },
            SessionAction::FetchBalance { connect_first: !st.use_same_node },
        ),
        MenuChoice::SendTransaction => (
            SessionState { has_client: st.has_client || !st.use_same_node, ..st },
            SessionAction::SendTransaction { connect_first: !st.use_same_node },
        ),
        MenuChoice::Exit => (st, SessionAction::Exit),
        MenuChoice::Invalid => (st, SessionAction::Invalid),
    }
}

/// Decide one loop turn from the parsed menu choice.
pub fn session_step(st: SessionState, choice: MenuChoice) -> (r: (SessionState, SessionAction))
    ensures
        r == spec_session_step(st, choice),
{
    match choice {
        MenuChoice::CreateWallet => (st, SessionAction::CreateWallet),
        MenuChoice::CheckBalance => (
            SessionState { use_same_node: st.use_same_node, has_client: st.has_client
                || !st.use_same_node },
            SessionAction::FetchBalance { connect_first: !st.use_same_node },
        ),
        MenuChoice::SendTransaction => (
            SessionState { use_same_node: st.use_same_node, has_client: st.has_client
                || !st.use_same_node },
            SessionAction::SendTransaction { connect_first: !st.use_same_node },
        ),
        MenuChoice::Exit => (st, SessionAction::Exit),
        MenuChoice::Invalid => (st, SessionAction::Invalid),
    }
}

} // verus!
