//! Why a line is not taken for a compiler invocation.

use vstd::prelude::*;

verus! {

/// One reason to reject a line.
#[derive(Clone, Copy, Debug, PartialEq, Eq, Structural)]
pub enum ReasonCode {
    /// The line has no ` -c `.
    MissingCompileFlag,
    /// The line has no ` -o `.
    MissingOutputFlag,
    /// The line holds none of `.c`, `.cpp`, `.cc`, `.cxx`.
    MissingSourceExtension,
    /// The line holds a word that build tools use for their own rules.
    LooksLikeBuildSystemNoise,
    /// No compiler is named at the end of a path.
    NotACompilerInvocation,
}

/// A set of reasons, one flag for each [`ReasonCode`].
#[derive(Clone, Copy, Debug, PartialEq, Eq)]
pub struct ReasonSet {
    pub missing_compile_flag: bool,
    pub missing_output_flag: bool,
    pub missing_source_extension: bool,
    pub looks_like_build_system_noise: bool,
    pub not_a_compiler_invocation: bool,
}

impl View for ReasonSet {
    type V = Set<ReasonCode>;

    open spec fn view(&self) -> Set<ReasonCode> {
        Set::new(|code: ReasonCode| self.flag(code))
    }
}

/// The codes of `reasons`, each at most once, in the order in which
/// [`ReasonCode`] declares them.
pub open spec fn listing(reasons: Set<ReasonCode>) -> Seq<ReasonCode> {
    listed(reasons, ReasonCode::MissingCompileFlag) + listed(
        reasons,
        ReasonCode::MissingOutputFlag,
    ) + listed(reasons, ReasonCode::MissingSourceExtension) + listed(
        reasons,
        ReasonCode::LooksLikeBuildSystemNoise,
    ) + listed(reasons, ReasonCode::NotACompilerInvocation)
}

/// `code` alone where `reasons` holds it, else nothing.
pub open spec fn listed(reasons: Set<ReasonCode>, code: ReasonCode) -> Seq<ReasonCode> {
    if reasons.contains(code) {
        seq![code]
    } else {
        Seq::empty()
    }
}

impl ReasonSet {
    /// The flag that stands for `code`.
    pub open spec fn flag(&self, code: ReasonCode) -> bool {
        match code {
            ReasonCode::MissingCompileFlag => self.missing_compile_flag,
            ReasonCode::MissingOutputFlag => self.missing_output_flag,
            ReasonCode::MissingSourceExtension => self.missing_source_extension,
            ReasonCode::LooksLikeBuildSystemNoise => self.looks_like_build_system_noise,
            ReasonCode::NotACompilerInvocation => self.not_a_compiler_invocation,
        }
    }

    /// Whether `code` is among the reasons.
    pub fn contains(&self, code: ReasonCode) -> (held: bool)
        ensures
            held == self@.contains(code),
    {
        match code {
            ReasonCode::MissingCompileFlag => self.missing_compile_flag,
            ReasonCode::MissingOutputFlag => self.missing_output_flag,
            ReasonCode::MissingSourceExtension => self.missing_source_extension,
            ReasonCode::LooksLikeBuildSystemNoise => self.looks_like_build_system_noise,
            ReasonCode::NotACompilerInvocation => self.not_a_compiler_invocation,
        }
    }

    /// Whether there is no reason at all.
    pub fn is_empty(&self) -> (none: bool)
        ensures
            none == (self@ == Set::<ReasonCode>::empty()),
    {
        let none = !self.missing_compile_flag && !self.missing_output_flag
            && !self.missing_source_extension && !self.looks_like_build_system_noise
            && !self.not_a_compiler_invocation;
        proof {
            if none {
                assert(self@ =~= Set::<ReasonCode>::empty());
            } else if self.missing_compile_flag {
                assert(self@.contains(ReasonCode::MissingCompileFlag));
            } else if self.missing_output_flag {
                assert(self@.contains(ReasonCode::MissingOutputFlag));
            } else if self.missing_source_extension {
                assert(self@.contains(ReasonCode::MissingSourceExtension));
            } else if self.looks_like_build_system_noise {
                assert(self@.contains(ReasonCode::LooksLikeBuildSystemNoise));
            } else {
                assert(self@.contains(ReasonCode::NotACompilerInvocation));
            }
        }
        none
    }

    /// The reasons as a list: each code once, in the order of their declaration.
    pub fn codes(&self) -> (list: Vec<ReasonCode>)
        ensures
            list@ == listing(self@),
    {
        let mut list: Vec<ReasonCode> = Vec::new();
        if self.missing_compile_flag {
            list.push(ReasonCode::MissingCompileFlag);
        }
        assert(list@ =~= listed(self@, ReasonCode::MissingCompileFlag));
        let ghost first = list@;
        if self.missing_output_flag {
            list.push(ReasonCode::MissingOutputFlag);
        }
        assert(list@ =~= first + listed(self@, ReasonCode::MissingOutputFlag));
        let ghost second = list@;
        if self.missing_source_extension {
            list.push(ReasonCode::MissingSourceExtension);
        }
        assert(list@ =~= second + listed(self@, ReasonCode::MissingSourceExtension));
        let ghost third = list@;
        if self.looks_like_build_system_noise {
            list.push(ReasonCode::LooksLikeBuildSystemNoise);
        }
        assert(list@ =~= third + listed(self@, ReasonCode::LooksLikeBuildSystemNoise));
        let ghost fourth = list@;
        if self.not_a_compiler_invocation {
            list.push(ReasonCode::NotACompilerInvocation);
        }
        assert(list@ =~= fourth + listed(self@, ReasonCode::NotACompilerInvocation));
        list
    }
}

} // verus!
