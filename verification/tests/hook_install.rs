use winput::hooks::{resolve_hook_install, InstallDecision};

#[test]
fn both_hooks_installed_lets_the_episode_advance() {
    assert_eq!(
        resolve_hook_install(Ok(()), Ok(())),
        InstallDecision { uninstall_keyboard: false, outcome: Ok(()) }
    );
}

#[test]
fn keyboard_failure_propagates_with_nothing_to_uninstall() {
    assert_eq!(
        resolve_hook_install(Err(5), Ok(())),
        InstallDecision { uninstall_keyboard: false, outcome: Err(5) }
    );
}

#[test]
fn mouse_failure_uninstalls_the_keyboard_hook_first() {
    assert_eq!(
        resolve_hook_install(Ok(()), Err(1404)),
        InstallDecision { uninstall_keyboard: true, outcome: Err(1404) }
    );
}
