//! The outcome of checking whether a toolchain is compatible with a project.
use vstd::prelude::*;

use crate::toolchain::OwnedToolchainSpec;

verus! {

/// How a compatibility check turned out.
///
/// `Incompatible` is a successful report of a negative outcome; its `error`, when
/// present, carries the diagnostic text that the check produced.
#[derive(Debug)]
pub enum CompatibilityReport {
    Compatible,
    Incompatible { error: Option<String> },
}

/// Whether two optional diagnostic texts are both absent, or both present with
/// the same characters.
pub open spec fn same_text(a: Option<String>, b: Option<String>) -> bool {
    match a {
        None => b is None,
        Some(x) => b is Some && x@ == b->0@,
    }
}

impl CompatibilityReport {
    /// Whether two reports have the same variant and the same diagnostic text.
    pub open spec fn same_as(&self, other: &CompatibilityReport) -> bool {
        match self {
            CompatibilityReport::Compatible => other is Compatible,
            CompatibilityReport::Incompatible { error } => other is Incompatible && same_text(
                *error,
                other->error,
            ),
        }
    }
}

/// The outcome of one compatibility check of a toolchain.
///
/// `decision` repeats what `compatibility_report` says, for cheap access; the
/// two agree on every value, since only [`VerifyOutput::compatible`] and
/// [`VerifyOutput::incompatible`] build one and nothing changes it afterwards.
#[derive(Debug)]
pub struct VerifyOutput {
    toolchain: OwnedToolchainSpec,
    /// True if compatible, false if incompatible
    decision: bool,
    compatibility_report: CompatibilityReport,
}

impl VerifyOutput {
    #[verifier::type_invariant]
    spec fn decision_agrees_with_report(self) -> bool {
        self.decision == (self.compatibility_report is Compatible)
    }

    /// The toolchain that was checked.
    pub closed spec fn spec_toolchain(&self) -> OwnedToolchainSpec {
        self.toolchain
    }

    /// The stored decision: true if compatible.
    pub closed spec fn spec_is_compatible(&self) -> bool {
        self.decision
    }

    /// The report of the check.
    pub closed spec fn spec_report(&self) -> CompatibilityReport {
        self.compatibility_report
    }

    /// Whether two outcomes are for the same toolchain, with the same decision
    /// and the same report.
    pub open spec fn same_as(&self, other: &VerifyOutput) -> bool {
        &&& self.spec_toolchain().same_as(&other.spec_toolchain())
        &&& self.spec_is_compatible() == other.spec_is_compatible()
        &&& self.spec_report().same_as(&other.spec_report())
    }

    /// The outcome of a check that found `toolchain` compatible.
    pub fn compatible(toolchain: OwnedToolchainSpec) -> (r: VerifyOutput)
        ensures
            r.spec_toolchain() == toolchain,
            r.is_compatible(),
            r.spec_report() == CompatibilityReport::Compatible,
    {
        VerifyOutput {
            toolchain,
            decision: true,
            compatibility_report: CompatibilityReport::Compatible,
        }
    }

    /// The outcome of a check that found `toolchain` incompatible, with the
    /// diagnostic text `error` if there is one.
    pub fn incompatible(toolchain: OwnedToolchainSpec, error: Option<String>) -> (r: VerifyOutput)
        ensures
            r.spec_toolchain() == toolchain,
            !r.is_compatible(),
            r.spec_report() == (CompatibilityReport::Incompatible { error }),
    {
        VerifyOutput {
            toolchain,
            decision: false,
            compatibility_report: CompatibilityReport::Incompatible { error },
        }
    }

    /// The toolchain that was checked.
    pub fn toolchain(&self) -> (r: &OwnedToolchainSpec)
        ensures
            *r == self.spec_toolchain(),
    {
        &self.toolchain
    }

    /// The report of the check.
    pub fn compatibility_report(&self) -> (r: &CompatibilityReport)
        ensures
            *r == self.spec_report(),
    {
        &self.compatibility_report
    }

    /// Whether the toolchain was found compatible; always the same as whether
    /// the report is `Compatible`.
    #[verifier::when_used_as_spec(spec_is_compatible)]
    pub fn is_compatible(&self) -> (r: bool)
        ensures
            r == self.spec_is_compatible(),
            r == (self.spec_report() is Compatible),
    {
        proof {
            use_type_invariant(self);
        }
        self.decision
    }
}

impl PartialEq for CompatibilityReport {
    fn eq(&self, other: &CompatibilityReport) -> (r: bool)
        ensures
            r == self.same_as(other),
    {
        match self {
            CompatibilityReport::Compatible => matches!(other, CompatibilityReport::Compatible),
            CompatibilityReport::Incompatible { error: a } => match other {
                CompatibilityReport::Compatible => false,
                CompatibilityReport::Incompatible { error: b } => match (a, b) {
                    (None, None) => true,
                    (Some(x), Some(y)) => x.eq(y),
                    _ => false,
                },
            },
        }
    }
}

impl vstd::std_specs::cmp::PartialEqSpecImpl for CompatibilityReport {
    open spec fn obeys_eq_spec() -> bool {
        true
    }

    open spec fn eq_spec(&self, other: &CompatibilityReport) -> bool {
        self.same_as(other)
    }
}

impl PartialEq for VerifyOutput {
    fn eq(&self, other: &VerifyOutput) -> (r: bool)
        ensures
            r == self.same_as(other),
    {
        self.toolchain == other.toolchain && self.decision == other.decision
            && self.compatibility_report == other.compatibility_report
    }
}

impl vstd::std_specs::cmp::PartialEqSpecImpl for VerifyOutput {
    open spec fn obeys_eq_spec() -> bool {
        true
    }

    open spec fn eq_spec(&self, other: &VerifyOutput) -> bool {
        self.same_as(other)
    }
}

impl Clone for CompatibilityReport {
    fn clone(&self) -> (r: CompatibilityReport)
        ensures
            r == *self,
    {
        match self {
            CompatibilityReport::Compatible => CompatibilityReport::Compatible,
            CompatibilityReport::Incompatible { error } => {
                let error = match error {
                    Some(text) => Some(text.clone()),
                    None => None,
                };
                CompatibilityReport::Incompatible { error }
            },
        }
    }
}

impl Clone for VerifyOutput {
    fn clone(&self) -> (r: VerifyOutput)
        ensures
            r == *self,
    {
        proof {
            use_type_invariant(self);
        }
        VerifyOutput {
            toolchain: self.toolchain.clone(),
            decision: self.decision,
            compatibility_report: self.compatibility_report.clone(),
        }
    }
}

} // verus!
