//! A closed set of scaling strategies for positioning rendered content
//! inside fixed display bounds, with a case-insensitive textual parser,
//! a canonical textual rendering, and a total declaration order.

use vstd::prelude::*;

verus! {

use vstd::std_specs::cmp::PartialOrdSpec;

/// The scalar value of a character with an ASCII upper-case letter taken
/// to its lower-case form; every other character is left as it is.
pub open spec fn fold_char(c: char) -> u32 {
    if 'A' as u32 <= c as u32 && c as u32 <= 'Z' as u32 {
        (c as u32 + 32) as u32
    } else {
        c as u32
    }
}

/// A string with its ASCII letters folded to lower case, character by
/// character, as scalar values.
pub open spec fn fold_seq(s: Seq<char>) -> Seq<u32> {
    Seq::new(s.len(), |i: int| fold_char(s[i]))
}

/// Two strings are equal up to ASCII case exactly when their folded forms
/// coincide.
pub open spec fn eq_ignore_ascii_case(a: Seq<char>, b: Seq<char>) -> bool {
    fold_seq(a) == fold_seq(b)
}

/// Folds one character as `fold_char` does.
fn fold_char_exec(c: char) -> (r: u32)
    ensures
        r == fold_char(c),
{
    let u = c as u32;
    if 65 <= u && u <= 90 {
        u + 32
    } else {
        u
    }
}

/// Decides whether two strings are equal up to ASCII case.
fn str_eq_ignore_ascii_case(a: &str, b: &str) -> (r: bool)
    ensures
        r == eq_ignore_ascii_case(a@, b@),
{
    let n = a.unicode_len();
    if n != b.unicode_len() {
        assert(fold_seq(a@).len() != fold_seq(b@).len());
        return false;
    }
    let mut i: usize = 0;
    while i < n
        invariant
            n == a@.len(),
            n == b@.len(),
            i <= n,
            forall|j: int| 0 <= j < i ==> fold_char(a@[j]) == fold_char(b@[j]),
        decreases n - i,
    {
        let ca = a.get_char(i);
        let cb = b.get_char(i);
        if fold_char_exec(ca) != fold_char_exec(cb) {
            assert(fold_seq(a@)[i as int] != fold_seq(b@)[i as int]);
            return false;
        }
        i += 1;
    }
    assert(fold_seq(a@) =~= fold_seq(b@));
    true
}

/// One scaling strategy. The set is closed by design: exactly these three
/// variants exist, and their declaration order is also their total order.
#[derive(Clone, Copy, PartialEq, Eq, Structural)]
pub enum ScaleType {
    FillCenter,
    FitCenter,
    FitBottom,
}

impl ScaleType {
    /// Position of the variant in declaration order.
    pub open spec fn ordinal(self) -> int {
        match self {
            ScaleType::FillCenter => 0,
            ScaleType::FitCenter => 1,
            ScaleType::FitBottom => 2,
        }
    }

    /// The canonical token of the variant: its one textual form.
    pub open spec fn spec_token(self) -> Seq<char> {
        match self {
            ScaleType::FillCenter => "fill-center"@,
            ScaleType::FitCenter => "fit-center"@,
            ScaleType::FitBottom => "fit-bottom"@,
        }
    }

    /// The help text shown beside the canonical token in generated help.
    pub open spec fn spec_help(self) -> Seq<char> {
        match self {
            ScaleType::FillCenter => "Scale to fill animation bounds"@,
            ScaleType::FitCenter => "Scale to fit in animation bounds"@,
            ScaleType::FitBottom => "Scale to fit in animation bounds and align bottom"@,
        }
    }

    /// What parsing an input yields: the first variant, in declaration
    /// order, whose canonical token equals the input up to ASCII case, and
    /// nothing when no token does. The tokens are mutually distinct, so at
    /// most one variant can match; first match is a policy, not a need.
    pub open spec fn spec_parse(input: Seq<char>) -> Option<ScaleType> {
        if eq_ignore_ascii_case(input, ScaleType::FillCenter.spec_token()) {
            Some(ScaleType::FillCenter)
        } else if eq_ignore_ascii_case(input, ScaleType::FitCenter.spec_token()) {
            Some(ScaleType::FitCenter)
        } else if eq_ignore_ascii_case(input, ScaleType::FitBottom.spec_token()) {
            Some(ScaleType::FitBottom)
        } else {
            None
        }
    }

    /// The diagnostic that a rejected input earns: the offending text,
    /// verbatim, behind a fixed prefix.
    pub open spec fn spec_invalid_message(input: Seq<char>) -> Seq<char> {
        "invalid variant: "@ + input
    }

    /// All variants, in declaration order, without duplicates; stable
    /// across calls.
    pub fn enumerate() -> (r: Vec<ScaleType>)
        ensures
            r@ == seq![ScaleType::FillCenter, ScaleType::FitCenter, ScaleType::FitBottom],
            r@.no_duplicates(),
    {
        let mut r: Vec<ScaleType> = Vec::new();
        r.push(ScaleType::FillCenter);
        r.push(ScaleType::FitCenter);
        r.push(ScaleType::FitBottom);
        assert(r@ =~= seq![ScaleType::FillCenter, ScaleType::FitCenter, ScaleType::FitBottom]);
        r
    }

    /// The variant whose canonical token equals `input` up to ASCII case,
    /// or a diagnostic naming the offending input when no token does.
    pub fn parse(input: &str) -> (r: Result<ScaleType, String>)
        ensures
            match r {
                Ok(v) => Self::spec_parse(input@) == Some(v),
                Err(e) => Self::spec_parse(input@) is None && e@ == Self::spec_invalid_message(
                    input@,
                ),
            },
    {
        let variants = Self::enumerate();
        let mut i: usize = 0;
        while i < variants.len()
            invariant
                variants@ == seq![
                    ScaleType::FillCenter,
                    ScaleType::FitCenter,
                    ScaleType::FitBottom,
                ],
                i <= variants@.len(),
                forall|j: int|
                    0 <= j < i ==> !eq_ignore_ascii_case(input@, variants@[j].spec_token()),
            decreases variants@.len() - i,
        {
            let v = variants[i];
            if str_eq_ignore_ascii_case(input, v.token()) {
                return Ok(v);
            }
            i += 1;
        }
        Err(String::from_str("invalid variant: ").concat(input))
    }

    /// The canonical token as an owned string: the single rendering path,
    /// for display and diagnostics alike.
    pub fn format(&self) -> (s: String)
        ensures
            s@ == self.spec_token(),
    {
        String::from_str(self.token())
    }

    /// The canonical token and the help text of the variant, together.
    pub fn describe(&self) -> (d: (&'static str, &'static str))
        ensures
            d.0@ == self.spec_token(),
            d.1@ == self.spec_help(),
    {
        (self.token(), self.help())
    }

    /// The canonical token of the variant.
    pub fn token(&self) -> (t: &'static str)
        ensures
            t@ == self.spec_token(),
    {
        match self {
            ScaleType::FillCenter => "fill-center",
            ScaleType::FitCenter => "fit-center",
            ScaleType::FitBottom => "fit-bottom",
        }
    }

    /// The help text of the variant.
    pub fn help(&self) -> (h: &'static str)
        ensures
            h@ == self.spec_help(),
    {
        match self {
            ScaleType::FillCenter => "Scale to fill animation bounds",
            ScaleType::FitCenter => "Scale to fit in animation bounds",
            ScaleType::FitBottom => "Scale to fit in animation bounds and align bottom",
        }
    }
    /// The position of the variant in declaration order, as a machine
    /// integer.
    pub fn position(&self) -> (n: usize)
        ensures
            n == self.ordinal(),
    {
        match self {
            ScaleType::FillCenter => 0,
            ScaleType::FitCenter => 1,
            ScaleType::FitBottom => 2,
        }
    }
}

/// Round-trip identity: parsing the canonical token of any variant yields
/// that variant, so rendering what was parsed gives the token back exactly.
pub proof fn lemma_parse_canonical_token(v: ScaleType)
    ensures
        ScaleType::spec_parse(v.spec_token()) == Some(v),
{
    reveal_strlit("fill-center");
    reveal_strlit("fit-center");
    reveal_strlit("fit-bottom");
    match v {
        ScaleType::FillCenter => {},
        ScaleType::FitCenter => {
            assert(fold_seq("fit-center"@).len() != fold_seq("fill-center"@).len());
        },
        ScaleType::FitBottom => {
            assert(fold_seq("fit-bottom"@).len() != fold_seq("fill-center"@).len());
            assert(fold_seq("fit-bottom"@)[4] != fold_seq("fit-center"@)[4]);
        },
    }
}

/// Case insensitivity: two inputs that agree up to ASCII case parse to the
/// same outcome, variant and failure alike.
pub proof fn lemma_parse_ignores_ascii_case(a: Seq<char>, b: Seq<char>)
    requires
        eq_ignore_ascii_case(a, b),
    ensures
        ScaleType::spec_parse(a) == ScaleType::spec_parse(b),
{
}

/// The comparison is a strict total order, consistent with declaration
/// order: it is total, equality holds exactly between a variant and itself,
/// strict comparison is asymmetric and transitive, and a variant is less
/// than another exactly when it is declared earlier.
pub proof fn lemma_order_strict_total(a: ScaleType, b: ScaleType, c: ScaleType)
    ensures
        a.partial_cmp_spec(&b) is Some,
        (a.partial_cmp_spec(&b) == Some(core::cmp::Ordering::Equal)) <==> a == b,
        (a.partial_cmp_spec(&b) == Some(core::cmp::Ordering::Less)) <==> (b.partial_cmp_spec(&a)
            == Some(core::cmp::Ordering::Greater)),
        (a.partial_cmp_spec(&b) == Some(core::cmp::Ordering::Less)) <==> a.ordinal() < b.ordinal(),
        (a.partial_cmp_spec(&b) == Some(core::cmp::Ordering::Less) && b.partial_cmp_spec(&c)
            == Some(core::cmp::Ordering::Less)) ==> a.partial_cmp_spec(&c) == Some(
            core::cmp::Ordering::Less,
        ),
{
}

impl vstd::std_specs::cmp::PartialOrdSpecImpl for ScaleType {
    open spec fn obeys_partial_cmp_spec() -> bool {
        true
    }

    open spec fn partial_cmp_spec(&self, other: &Self) -> Option<core::cmp::Ordering> {
        if self.ordinal() < other.ordinal() {
            Some(core::cmp::Ordering::Less)
        } else if self.ordinal() == other.ordinal() {
            Some(core::cmp::Ordering::Equal)
        } else {
            Some(core::cmp::Ordering::Greater)
        }
    }
}

impl PartialOrd for ScaleType {
    fn partial_cmp(&self, other: &Self) -> (r: Option<core::cmp::Ordering>) {
        let a = self.position();
        let b = other.position();
        if a < b {
            Some(core::cmp::Ordering::Less)
        } else if a == b {
            Some(core::cmp::Ordering::Equal)
        } else {
            Some(core::cmp::Ordering::Greater)
        }
    }
}

} // verus!
