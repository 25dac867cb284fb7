//! The boot menu's choices: the full menu after a successful login, the
//! reduced one after a failed login.
use vstd::prelude::*;

verus! {

/// A way to leave the boot menu.
#[derive(Clone, Copy, Debug, PartialEq, Eq, Structural)]
pub enum BootMenuExitOption {
    Arch,
    Windows,
    Uefi,
    Poweroff,
    Reboot,
}

/// The entries of the full menu, shown once the keyfile is recovered, in order.
pub open spec fn full_menu_spec() -> Seq<BootMenuExitOption> {
    seq![
        BootMenuExitOption::Arch,
        BootMenuExitOption::Windows,
        BootMenuExitOption::Uefi,
        BootMenuExitOption::Reboot,
        BootMenuExitOption::Poweroff,
    ]
}

/// The entries of the reduced menu after a failed login, in order: `None` is
/// "try logging in again".
pub open spec fn partial_menu_spec() -> Seq<Option<BootMenuExitOption>> {
    seq![None, Some(BootMenuExitOption::Reboot), Some(BootMenuExitOption::Poweroff)]
}

/// The entries of the full menu.
pub fn full_menu_items() -> (r: Vec<BootMenuExitOption>)
    ensures
        r@ == full_menu_spec(),
{
    let r = vec![
        BootMenuExitOption::Arch,
        BootMenuExitOption::Windows,
        BootMenuExitOption::Uefi,
        BootMenuExitOption::Reboot,
        BootMenuExitOption::Poweroff,
    ];
    assert(r@ =~= full_menu_spec());
    r
}

/// The entries of the reduced menu.
pub fn partial_menu_items() -> (r: Vec<Option<BootMenuExitOption>>)
    ensures
        r@ == partial_menu_spec(),
{
    let r = vec![None, Some(BootMenuExitOption::Reboot), Some(BootMenuExitOption::Poweroff)];
    assert(r@ =~= partial_menu_spec());
    r
}

} // verus!
