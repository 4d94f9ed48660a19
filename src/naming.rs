//! The naming policy: which name pattern a variable's role calls for, and
//! whether its name matches.
//!
//! Names that are compile-time constants (static and const) are upper snake
//! case whatever else holds. Every other name is built from an optional
//! member prefix `m_`, a category sigil and a case shape. Which sigil and
//! which shape each category takes is a table, [`NamingPolicy`], so that the
//! choices for arrays and for members stand in one visible place.
use crate::varcontext::{VarContext, VarContextType, VarView};
use vstd::prelude::*;

verus! {

/// The letter that marks a name's category.
#[derive(Debug, Clone, Copy, PartialEq, Eq, Structural)]
pub enum Sigil {
    /// No letter.
    Bare,
    /// `p`, for pointers.
    Pointer,
    /// `r`, for references.
    Reference,
}

/// The case shape of a name's body.
#[derive(Debug, Clone, Copy, PartialEq, Eq, Structural)]
pub enum CaseShape {
    /// `clockType`: a lower-case word, then capitalised words.
    LowerCamel,
    /// `ClockType`: one or more capitalised words.
    Pascal,
}

/// The sigil of one category, and its shape at free scope and as a member.
#[derive(Debug, Clone, Copy, PartialEq, Eq, Structural)]
pub struct CategoryRule {
    pub sigil: Sigil,
    pub free_shape: CaseShape,
    pub member_shape: CaseShape,
}

/// A rule for each category of variable that is not a compile-time constant.
#[derive(Debug, Clone, Copy, PartialEq, Eq, Structural)]
pub struct NamingPolicy {
    pub value: CategoryRule,
    pub pointer: CategoryRule,
    pub reference: CategoryRule,
    pub array: CategoryRule,
}

/// Blocks of upper-case letters and digits, each starting with a letter and
/// at least two long, joined by single underscores.
pub open spec fn constant_body() -> Seq<char> {
    "[A-Z][A-Z0-9]+(_[A-Z][A-Z0-9]+)*"@
}

pub open spec fn lower_camel_body() -> Seq<char> {
    "[a-z][a-z0-9]*([A-Z][a-z0-9]+)*"@
}

pub open spec fn pascal_body() -> Seq<char> {
    "([A-Z][a-z0-9]+)+"@
}

pub open spec fn member_prefix() -> Seq<char> {
    "m_"@
}

pub open spec fn sigil_text(s: Sigil) -> Seq<char> {
    match s {
        Sigil::Bare => Seq::empty(),
        Sigil::Pointer => "p"@,
        Sigil::Reference => "r"@,
    }
}

pub open spec fn shape_body(c: CaseShape) -> Seq<char> {
    match c {
        CaseShape::LowerCamel => lower_camel_body(),
        CaseShape::Pascal => pascal_body(),
    }
}

/// A pattern body anchored at both ends, so that it must match the whole name.
pub open spec fn anchored(body: Seq<char>) -> Seq<char> {
    "^"@ + body + "$"@
}

/// The table in use: values are lower camel case at free scope; pointers
/// take `p` and references `r`, both Pascal case; members are Pascal case
/// after their prefix and sigil. Arrays take no sigil and follow values.
pub open spec fn standard_policy() -> NamingPolicy {
    NamingPolicy {
        value: CategoryRule {
            sigil: Sigil::Bare,
            free_shape: CaseShape::LowerCamel,
            member_shape: CaseShape::Pascal,
        },
        pointer: CategoryRule {
            sigil: Sigil::Pointer,
            free_shape: CaseShape::Pascal,
            member_shape: CaseShape::Pascal,
        },
        reference: CategoryRule {
            sigil: Sigil::Reference,
            free_shape: CaseShape::Pascal,
            member_shape: CaseShape::Pascal,
        },
        array: CategoryRule {
            sigil: Sigil::Bare,
            free_shape: CaseShape::LowerCamel,
            member_shape: CaseShape::Pascal,
        },
    }
}

/// A variable that names a compile-time constant.
pub open spec fn is_constant(v: VarView) -> bool {
    v.is_static && v.is_const
}

impl NamingPolicy {
    pub open spec fn rule_for(self, category: VarContextType) -> CategoryRule {
        match category {
            VarContextType::Value => self.value,
            VarContextType::Ptr => self.pointer,
            VarContextType::Ref => self.reference,
            VarContextType::Array => self.array,
        }
    }

    /// The unanchored pattern that a variable's name must match.
    pub open spec fn body_spec(self, v: VarView) -> Seq<char> {
        if is_constant(v) {
            constant_body()
        } else {
            let rule = self.rule_for(v.var_type);
            if v.is_member {
                member_prefix() + sigil_text(rule.sigil) + shape_body(rule.member_shape)
            } else {
                sigil_text(rule.sigil) + shape_body(rule.free_shape)
            }
        }
    }

    /// The anchored pattern that a variable's name must match.
    pub open spec fn pattern_spec(self, v: VarView) -> Seq<char> {
        anchored(self.body_spec(v))
    }

    /// The policy accepts the variable's name.
    pub open spec fn accepts(self, v: VarView) -> bool {
        regex_outcome(self.pattern_spec(v), v.name) == Some(true)
    }

    /// The standard table; see [`standard_policy`].
    pub fn standard() -> (r: NamingPolicy)
        ensures
            r == standard_policy(),
    {
        NamingPolicy {
            value: CategoryRule {
                sigil: Sigil::Bare,
                free_shape: CaseShape::LowerCamel,
                member_shape: CaseShape::Pascal,
            },
            pointer: CategoryRule {
                sigil: Sigil::Pointer,
                free_shape: CaseShape::Pascal,
                member_shape: CaseShape::Pascal,
            },
            reference: CategoryRule {
                sigil: Sigil::Reference,
                free_shape: CaseShape::Pascal,
                member_shape: CaseShape::Pascal,
            },
            array: CategoryRule {
                sigil: Sigil::Bare,
                free_shape: CaseShape::LowerCamel,
                member_shape: CaseShape::Pascal,
            },
        }
    }

    /// The rule of one category.
    pub fn rule(&self, category: VarContextType) -> (r: CategoryRule)
        ensures
            r == self.rule_for(category),
    {
        match category {
            VarContextType::Value => self.value,
            VarContextType::Ptr => self.pointer,
            VarContextType::Ref => self.reference,
            VarContextType::Array => self.array,
        }
    }

    /// The anchored pattern, in regular-expression syntax, that the
    /// variable's name must match.
    pub fn pattern(&self, context: &VarContext) -> (r: String)
        ensures
            r@ == self.pattern_spec(context@),
    {
        let mut p = String::from_str("^");
        if context.is_static && context.is_const {
            p.append("[A-Z][A-Z0-9]+(_[A-Z][A-Z0-9]+)*");
        } else {
            let rule = self.rule(context.var_type);
            if context.is_member {
                p.append("m_");
            }
            match rule.sigil {
                Sigil::Bare => {},
                Sigil::Pointer => p.append("p"),
                Sigil::Reference => p.append("r"),
            }
            let shape = if context.is_member {
                rule.member_shape
            } else {
                rule.free_shape
            };
            match shape {
                CaseShape::LowerCamel => p.append("[a-z][a-z0-9]*([A-Z][a-z0-9]+)*"),
                CaseShape::Pascal => p.append("([A-Z][a-z0-9]+)+"),
            }
        }
        p.append("$");
        assert(p@ =~= self.pattern_spec(context@));
        p
    }

    /// Checks a variable's name: `Ok` when it matches the pattern that the
    /// variable's role calls for, else that pattern, for display.
    pub fn check(&self, context: &VarContext) -> (r: Result<(), String>)
        ensures
            r is Ok <==> self.accepts(context@),
            r matches Err(p) ==> p@ == self.pattern_spec(context@),
    {
        let p = self.pattern(context);
        let outcome = regex_match(p.as_str(), context.name.as_str());
        name_verdict(p, outcome)
    }
}

/// What the `regex` crate makes of `text` against `pattern`: `None` when the
/// pattern does not compile, else whether the compiled expression matches.
pub uninterp spec fn regex_outcome(pattern: Seq<char>, text: Seq<char>) -> Option<bool>;

/// Relies on `regex::Regex::new` to compile `pattern` and on
/// `regex::Regex::is_match` to test `text` against it; both depend on their
/// arguments alone.
#[verifier::external_body]
fn regex_match(pattern: &str, text: &str) -> (r: Option<bool>)
    ensures
        r == regex_outcome(pattern@, text@),
{
    match regex::Regex::new(pattern) {
        Ok(re) => Some(re.is_match(text)),
        Err(_) => None,
    }
}

/// The outcome of a name check, given the pattern and what matching the name
/// against it gave: `Ok` on a match, else the pattern. A pattern that does
/// not compile matches no name.
pub fn name_verdict(pattern: String, outcome: Option<bool>) -> (r: Result<(), String>)
    ensures
        outcome == Some(true) ==> r == Ok::<(), String>(()),
        outcome != Some(true) ==> r == Err::<(), String>(pattern),
{
    match outcome {
        Some(true) => Ok(()),
        _ => Err(pattern),
    }
}

/// Checks a variable's name under the standard table.
pub fn check_ra_nc_var(context: &VarContext) -> (r: Result<(), String>)
    ensures
        r is Ok <==> standard_policy().accepts(context@),
        r matches Err(p) ==> p@ == standard_policy().pattern_spec(context@),
{
    NamingPolicy::standard().check(context)
}

/// A compile-time constant must have an upper-snake-case name, whatever its
/// category or scope and under any table: its pattern is the anchored
/// constant pattern, so two constants with the same name pass or fail alike.
pub proof fn lemma_constants_are_upper_snake(policy: NamingPolicy, v: VarView, w: VarView)
    requires
        is_constant(v),
        is_constant(w),
        v.name == w.name,
    ensures
        policy.pattern_spec(v) == anchored(constant_body()),
        policy.accepts(v) == policy.accepts(w),
{
}

/// A free-scope value that is not a constant must have a lower-camel-case
/// name, with no prefix and no sigil.
pub proof fn lemma_free_values_are_lower_camel(v: VarView)
    requires
        !is_constant(v),
        !v.is_member,
        v.var_type == VarContextType::Value,
    ensures
        standard_policy().pattern_spec(v) == anchored(lower_camel_body()),
{
}

/// A pointer that is not a constant must have the sigil `p` followed by a
/// Pascal-case body, after the member prefix where it is a member.
pub proof fn lemma_pointers_take_p(v: VarView)
    requires
        !is_constant(v),
        v.var_type == VarContextType::Ptr,
    ensures
        !v.is_member ==> standard_policy().pattern_spec(v) == anchored("p"@ + pascal_body()),
        v.is_member ==> standard_policy().pattern_spec(v) == anchored(
            member_prefix() + "p"@ + pascal_body(),
        ),
{
}

/// A member that is not a constant must start with the prefix `m_`, followed
/// by its category's sigil and a Pascal-case body.
pub proof fn lemma_members_take_prefix(v: VarView)
    requires
        !is_constant(v),
        v.is_member,
    ensures
        standard_policy().pattern_spec(v) == anchored(
            member_prefix() + sigil_text(standard_policy().rule_for(v.var_type).sigil)
                + pascal_body(),
        ),
{
}

} // verus!
