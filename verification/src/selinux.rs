//! Parsing of the colon-separated security-context attribute string into
//! its four optional components.

use vstd::prelude::*;

use crate::text::spec_split;
use crate::text::spec_trim;
use crate::text::split_char;
use crate::text::trim_str;

verus! {

/// A security context label: user, role, type and sensitivity level. Each
/// component is optional, since the attribute string may carry fewer than
/// four colon-separated segments.
#[derive(Debug, PartialEq, Eq)]
pub struct SElinux {
    pub se_user: Option<String>,
    pub se_role: Option<String>,
    pub se_type: Option<String>,
    pub se_sensitivity_level: Option<String>,
}

/// Spec-level image of `SElinux`: the same four components as character
/// sequences.
#[verifier::ext_equal]
pub ghost struct SElinuxModel {
    pub se_user: Option<Seq<char>>,
    pub se_role: Option<Seq<char>>,
    pub se_type: Option<Seq<char>>,
    pub se_sensitivity_level: Option<Seq<char>>,
}

/// The character sequence behind an optional string.
pub open spec fn opt_seq(o: Option<String>) -> Option<Seq<char>> {
    match o {
        Some(s) => Some(s@),
        None => None,
    }
}

impl View for SElinux {
    type V = SElinuxModel;

    open spec fn view(&self) -> SElinuxModel {
        SElinuxModel {
            se_user: opt_seq(self.se_user),
            se_role: opt_seq(self.se_role),
            se_type: opt_seq(self.se_type),
            se_sensitivity_level: opt_seq(self.se_sensitivity_level),
        }
    }
}

/// Component `i` of a segment list: the segment trimmed of surrounding
/// whitespace, if it exists and is then nonempty.
pub open spec fn spec_field_of_segs(segs: Seq<Seq<char>>, i: int) -> Option<Seq<char>> {
    if 0 <= i < segs.len() && spec_trim(segs[i]).len() > 0 {
        Some(spec_trim(segs[i]))
    } else {
        None
    }
}

/// Component `i` of the raw context string `ctx`, split on `':'`.
pub open spec fn spec_context_field(ctx: Seq<char>, i: int) -> Option<Seq<char>> {
    spec_field_of_segs(spec_split(ctx, ':'), i)
}

/// What parsing a raw context string yields: its first four components.
pub open spec fn spec_selinux(ctx: Seq<char>) -> SElinuxModel {
    SElinuxModel {
        se_user: spec_context_field(ctx, 0),
        se_role: spec_context_field(ctx, 1),
        se_type: spec_context_field(ctx, 2),
        se_sensitivity_level: spec_context_field(ctx, 3),
    }
}

/// Component `i` of the split segment list, trimmed; `None` when absent or
/// empty after trimming.
fn field_at(segs: &Vec<String>, i: usize) -> (r: Option<String>)
    ensures
        opt_seq(r) == spec_field_of_segs(segs.deep_view(), i as int),
{
    if i < segs.len() {
        proof {
            assert(segs.deep_view()[i as int] == segs@[i as int]@);
        }
        let t = trim_str(segs[i].as_str());
        if t.as_str().unicode_len() > 0 {
            Some(t)
        } else {
            None
        }
    } else {
        None
    }
}

/// Splits the raw security-context attribute string on `':'` and returns
/// its first four components, trimmed; missing or empty trailing segments
/// yield `None` rather than an error.
pub fn parse_selinux_context(context: &str) -> (r: SElinux)
    ensures
        r@ == spec_selinux(context@),
{
    let segs = split_char(context, ':');
    let se_user = field_at(&segs, 0);
    let se_role = field_at(&segs, 1);
    let se_type = field_at(&segs, 2);
    let se_sensitivity_level = field_at(&segs, 3);
    let r = SElinux { se_user, se_role, se_type, se_sensitivity_level };
    proof {
        assert(r@ =~= spec_selinux(context@));
    }
    r
}

} // verus!
