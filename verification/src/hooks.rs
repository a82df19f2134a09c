use vstd::prelude::*;

verus! {

/// What must happen after the capture thread attempted to register its two
/// hooks, keyboard first and mouse second.
#[derive(Clone, Copy, PartialEq, Eq, Debug)]
pub struct InstallDecision {
    /// Whether the keyboard hook, installed first, must be uninstalled
    /// before the error propagates: a half-installed session must not leak.
    pub uninstall_keyboard: bool,
    /// `Ok` when both hooks are installed and the episode may advance;
    /// otherwise the operating-system error code of the registration that
    /// failed.
    pub outcome: Result<(), u32>,
}

/// Decides what follows the two hook registrations of a starting episode.
///
/// The keyboard hook is registered first; the mouse hook is attempted only
/// after the keyboard hook is in place, so `mouse` is ignored when the
/// keyboard registration failed. If either registration fails, any hook
/// already installed in this attempt is uninstalled before the error
/// propagates, so no partial-success state leaks.
pub fn resolve_hook_install(keyboard: Result<(), u32>, mouse: Result<(), u32>) -> (r:
    InstallDecision)
    ensures
        keyboard is Ok && mouse is Ok ==> r == (InstallDecision {
            uninstall_keyboard: false,
            outcome: Ok::<(), u32>(()),
        }),
        keyboard matches Err(code) ==> r == (InstallDecision {
            uninstall_keyboard: false,
            outcome: Err::<(), u32>(code),
        }),
        keyboard is Ok ==> (mouse matches Err(code) ==> r == (InstallDecision {
            uninstall_keyboard: true,
            outcome: Err::<(), u32>(code),
        })),
{
    match keyboard {
        Err(code) => InstallDecision { uninstall_keyboard: false, outcome: Err(code) },
        Ok(()) => match mouse {
            Err(code) => InstallDecision { uninstall_keyboard: true, outcome: Err(code) },
            Ok(()) => InstallDecision { uninstall_keyboard: false, outcome: Ok(()) },
        },
    }
}

} // verus!
