//! The macros of the C headers that are left out when bindings to the engine
//! are generated, because the headers define them more than once.

use vstd::prelude::*;

verus! {

/// What the binding generator is told to do with a macro.
#[derive(Clone, Copy, Debug, PartialEq, Eq, Structural)]
pub enum MacroParsingBehavior {
    /// Generate nothing for the macro.
    Ignore,
    /// Treat the macro as the generator would by itself.
    Default,
}

/// The names of the macros that are left out.
pub open spec fn ignored_macros() -> Set<Seq<char>> {
    set![
        "FE_DIVBYZERO"@,
        "FE_DOWNWARD"@,
        "FE_INEXACT"@,
        "FE_INVALID"@,
        "FE_OVERFLOW"@,
        "FE_TONEAREST"@,
        "FE_TOWARDZERO"@,
        "FE_UNDERFLOW"@,
        "FE_UPWARD"@,
        "FP_INFINITE"@,
        "FP_INT_DOWNWARD"@,
        "FP_INT_TONEAREST"@,
        "FP_INT_TONEARESTFROMZERO"@,
        "FP_INT_TOWARDZERO"@,
        "FP_INT_UPWARD"@,
        "FP_NAN"@,
        "FP_NORMAL"@,
        "FP_SUBNORMAL"@,
        "FP_ZERO"@,
        "IPPORT_RESERVED"@,
    ]
}

/// The set of macro names to leave out.
#[derive(Debug)]
pub struct IgnoreMacros {
    names: Vec<String>,
}

impl View for IgnoreMacros {
    type V = Set<Seq<char>>;

    closed spec fn view(&self) -> Set<Seq<char>> {
        Set::new(
            |name: Seq<char>| exists|i: int| 0 <= i < self.names@.len() && self.names@[i]@ == name,
        )
    }
}

impl IgnoreMacros {
    /// The set of the macros that are left out.
    pub fn new() -> (macros: Self)
        ensures
            macros@ == ignored_macros(),
    {
        let mut names: Vec<String> = Vec::new();
        names.push("FE_DIVBYZERO".to_owned());
        names.push("FE_DOWNWARD".to_owned());
        names.push("FE_INEXACT".to_owned());
        names.push("FE_INVALID".to_owned());
        names.push("FE_OVERFLOW".to_owned());
        names.push("FE_TONEAREST".to_owned());
        names.push("FE_TOWARDZERO".to_owned());
        names.push("FE_UNDERFLOW".to_owned());
        names.push("FE_UPWARD".to_owned());
        names.push("FP_INFINITE".to_owned());
        names.push("FP_INT_DOWNWARD".to_owned());
        names.push("FP_INT_TONEAREST".to_owned());
        names.push("FP_INT_TONEARESTFROMZERO".to_owned());
        names.push("FP_INT_TOWARDZERO".to_owned());
        names.push("FP_INT_UPWARD".to_owned());
        names.push("FP_NAN".to_owned());
        names.push("FP_NORMAL".to_owned());
        names.push("FP_SUBNORMAL".to_owned());
        names.push("FP_ZERO".to_owned());
        names.push("IPPORT_RESERVED".to_owned());
        let macros = IgnoreMacros { names };
        proof {
            let listed = macros.names@;
            assert(listed.len() == 20);
            assert(listed[0]@ == "FE_DIVBYZERO"@);
            assert(listed[1]@ == "FE_DOWNWARD"@);
            assert(listed[2]@ == "FE_INEXACT"@);
            assert(listed[3]@ == "FE_INVALID"@);
            assert(listed[4]@ == "FE_OVERFLOW"@);
            assert(listed[5]@ == "FE_TONEAREST"@);
            assert(listed[6]@ == "FE_TOWARDZERO"@);
            assert(listed[7]@ == "FE_UNDERFLOW"@);
            assert(listed[8]@ == "FE_UPWARD"@);
            assert(listed[9]@ == "FP_INFINITE"@);
            assert(listed[10]@ == "FP_INT_DOWNWARD"@);
            assert(listed[11]@ == "FP_INT_TONEAREST"@);
            assert(listed[12]@ == "FP_INT_TONEARESTFROMZERO"@);
            assert(listed[13]@ == "FP_INT_TOWARDZERO"@);
            assert(listed[14]@ == "FP_INT_UPWARD"@);
            assert(listed[15]@ == "FP_NAN"@);
            assert(listed[16]@ == "FP_NORMAL"@);
            assert(listed[17]@ == "FP_SUBNORMAL"@);
            assert(listed[18]@ == "FP_ZERO"@);
            assert(listed[19]@ == "IPPORT_RESERVED"@);
            assert(macros@ =~= ignored_macros());
        }
        macros
    }

    /// Whether a macro is to be parsed: a macro of the set is ignored, every
    /// other is left to the generator's default.
    pub fn will_parse_macro(&self, name: &str) -> (behavior: MacroParsingBehavior)
        ensures
            behavior == if self@.contains(name@) {
                MacroParsingBehavior::Ignore
            } else {
                MacroParsingBehavior::Default
            },
    {
        let wanted = name.to_owned();
        let mut i: usize = 0;
        while i < self.names.len()
            invariant
                i <= self.names@.len(),
                wanted@ == name@,
                forall|j: int| 0 <= j < i ==> self.names@[j]@ != name@,
            decreases self.names@.len() - i,
        {
            if self.names[i] == wanted {
                return MacroParsingBehavior::Ignore;
            }
            i += 1;
        }
        MacroParsingBehavior::Default
    }
}

} // verus!
