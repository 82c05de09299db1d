use vstd::prelude::*;

verus! {

/// The effective user id that marks administrative rights.
pub open spec fn is_root_uid(euid: u32) -> bool {
    euid == 0
}

/// Relies on nix::unistd::Uid::effective (geteuid): the effective user id of
/// this process. It depends on the process, so nothing is stated of it.
#[verifier::external_body]
pub(crate) fn effective_uid() -> (r: u32) {
    nix::unistd::Uid::effective().as_raw()
}

/// Whether an effective user id holds the rights to change ownership.
pub fn is_elevated(euid: u32) -> (r: bool)
    ensures
        r == is_root_uid(euid),
{
    euid == 0
}

} // verus!
