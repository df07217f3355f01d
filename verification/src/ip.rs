//! An IP-address enum and the two pattern matches made over it, with the
//! arm that each address selects pinned down: arms are tried in declaration
//! order and the first that matches wins, so an or-pattern arm can shadow a
//! guarded arm that follows it.

use vstd::prelude::*;

verus! {

/// An IP address: four octets, or a textual form.
pub enum IpAddr {
    V4(u8, u8, u8, u8),
    V6(String),
}

/// The arms of the classifying match, in their declaration order.
#[derive(Debug, PartialEq, Eq, Structural)]
pub enum MatchArm {
    /// An or-pattern arm: a first octet of 127 or of 128.
    Net127Or128,
    /// A guarded arm: a first octet of 127 and a last octet of 1.
    Guarded127End1,
    /// Any other four-octet address.
    PlainV4,
    /// The textual loopback address "::1".
    LoopbackV6,
    /// Any other textual address.
    OtherV6,
}

/// The arm that first-match order selects for an address. The guarded arm
/// never appears here: every address it would accept is already taken by
/// the or-pattern arm declared before it.
pub open spec fn selected_arm(addr: IpAddr) -> MatchArm {
    match addr {
        IpAddr::V4(a, _b, _c, _d) => if a == 127 || a == 128 {
            MatchArm::Net127Or128
        } else {
            MatchArm::PlainV4
        },
        IpAddr::V6(s) => if s@ == "::1"@ {
            MatchArm::LoopbackV6
        } else {
            MatchArm::OtherV6
        },
    }
}

/// Runs the match as written, or-pattern, guard and all, and returns the
/// arm that fired. The guarded arm is kept although it can never fire, to
/// show the shadowing; `lemma_guarded_arm_shadowed` proves it dead.
#[allow(unreachable_patterns)]
pub fn match_arm(addr: &IpAddr) -> (r: MatchArm)
    ensures
        r == selected_arm(*addr),
{
    match addr {
        IpAddr::V4(127, _b, _c, _d) | IpAddr::V4(128, _b, _c, _d) => MatchArm::Net127Or128,
        IpAddr::V4(127, _b, _c, d) if *d == 1 => MatchArm::Guarded127End1,
        IpAddr::V4(_a, _b, _c, _d) => MatchArm::PlainV4,
        IpAddr::V6(s) => {
            let loopback = "::1".to_owned();
            if *s == loopback {
                MatchArm::LoopbackV6
            } else {
                MatchArm::OtherV6
            }
        },
    }
}

/// First-match order shadows the guarded arm: its pattern asks for a first
/// octet of 127, and the or-pattern arm declared before it already claims
/// every such address, so no input selects it.
pub proof fn lemma_guarded_arm_shadowed(addr: IpAddr)
    ensures
        selected_arm(addr) != MatchArm::Guarded127End1,
{
}

/// Keeps an address only if it is textual: a four-octet address, whichever
/// arm it falls under, yields nothing, and a textual one is handed back
/// whole.
pub fn v6_candidate(addr: IpAddr) -> (r: Option<IpAddr>)
    ensures
        addr is V4 ==> r is None,
        addr is V6 ==> r == Some(addr),
{
    match addr {
        IpAddr::V4(127, _b, _c, _d) => None,
        IpAddr::V4(_a, _b, _c, _d) => None,
        _ => Some(addr),
    }
}

} // verus!
