use vstd::prelude::*;

verus! {

/// One TLS client configuration exercised as an independent lens per domain.
/// The modern profile takes a contemporary safe default negotiation surface;
/// the legacy profile restricts negotiation to TLS 1.2 with RSA key exchange,
/// since misconfigured or older servers may only be reachable there.
#[derive(Clone, Copy, PartialEq, Eq, Structural, Debug)]
pub enum ProfileKind {
    ModernDefaults,
    Tls12Rsa,
}

impl ProfileKind {
    /// The label a diagnostic line prints for this profile.
    pub fn label(&self) -> (s: &'static str)
        ensures
            self is ModernDefaults ==> s@ == "modern defaults"@,
            self is Tls12Rsa ==> s@ == "tls12 rsa"@,
    {
        match self {
            ProfileKind::ModernDefaults => "modern defaults",
            ProfileKind::Tls12Rsa => "tls12 rsa",
        }
    }
}

/// The profiles a run exercises, in order: always the modern defaults, and
/// the legacy profile unless it is skipped by configuration.
pub open spec fn spec_profiles(modern_defaults_only: bool) -> Seq<ProfileKind> {
    if modern_defaults_only {
        seq![ProfileKind::ModernDefaults]
    } else {
        seq![ProfileKind::ModernDefaults, ProfileKind::Tls12Rsa]
    }
}

/// Enumerate the profiles to exercise. The modern profile is always first,
/// so skipping the legacy profile removes checks but never changes which
/// checks the modern profile contributes.
pub fn profiles(modern_defaults_only: bool) -> (ps: Vec<ProfileKind>)
    ensures
        ps@ == spec_profiles(modern_defaults_only),
        ps@.len() >= 1,
        ps@[0] is ModernDefaults,
{
    let mut ps: Vec<ProfileKind> = Vec::new();
    ps.push(ProfileKind::ModernDefaults);
    if !modern_defaults_only {
        ps.push(ProfileKind::Tls12Rsa);
    }
    proof {
        assert(ps@ =~= spec_profiles(modern_defaults_only));
    }
    ps
}

} // verus!
