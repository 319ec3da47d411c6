//! The call into the template engine.
//!
//! Template syntax is the engine's own. The library hands the engine a
//! template and its data and takes the text that comes back. Two things it
//! looks at before. A template that calls a partial is refused, because
//! partials can call one another without end. And a template with more
//! braces, brackets and parentheses than [`MAX_NESTING_MARKS`] is refused,
//! because the engine descends once for every construct that is nested in
//! another, and each of them opens with one of these.

use vstd::prelude::*;
use vstd::string::StringExecFns;
use crate::errors::{lemma_readable_is_not_empty, readable_reason, RenderingError};
use crate::helpers::terraform_name_of_param;
use crate::json::{json_of, Json, TemplateData};

verus! {

/// Whether `c` may stand between the two braces that open a tag and the
/// tag's sigil: a further brace, the tilde that trims white space, the hash
/// that opens a block, or white space.
pub open spec fn is_tag_filler(c: char) -> bool {
    c == '{' || c == '~' || c == '#' || c == ' ' || c == '\t' || c == '\n' || c == '\r'
}

/// Whether two braces stand at `at` and the place after it.
pub open spec fn is_tag_opening(template: Seq<char>, at: int) -> bool {
    0 <= at && at + 1 < template.len() && template[at] == '{' && template[at + 1] == '{'
}

/// Whether all of `template` from `from` up to `to` is tag filler.
pub open spec fn is_filler_between(template: Seq<char>, from: int, to: int) -> bool {
    forall|k: int| from <= k < to ==> is_tag_filler(#[trigger] template[k])
}

/// Whether a partial is called by the tag that opens at `opening` and whose
/// sigil `>` stands at `sigil`.
pub open spec fn calls_partial_at(template: Seq<char>, opening: int, sigil: int) -> bool {
    &&& is_tag_opening(template, opening)
    &&& opening + 2 <= sigil < template.len()
    &&& template[sigil] == '>'
    &&& is_filler_between(template, opening + 2, sigil)
}

/// Whether the template holds what the engine may read as the call of a
/// partial, plain or as a block: two opening braces and, after nothing but
/// tag filler, the sigil `>`. The sequence counts wherever it stands, also in
/// a comment, in a raw block or behind an escape, where the engine would
/// read it as text.
pub open spec fn calls_partial(template: Seq<char>) -> bool {
    exists|opening: int, sigil: int| calls_partial_at(template, opening, sigil)
}

/// Scans a template for the call of a partial.
pub fn has_partial_call(template: &str) -> (out: bool)
    ensures
        out == calls_partial(template@),
{
    let len: usize = template.unicode_len();
    let mut pos: usize = 0;
    // The filler that ends at `pos` began at `run`; `pair` says whether two
    // braces stand side by side in it, at `seen` if so; `brace` says whether
    // it ends in a brace.
    let ghost mut run: int = 0;
    let ghost mut seen: int = 0;
    let mut pair: bool = false;
    let mut brace: bool = false;
    while pos < len
        invariant
            len == template@.len(),
            0 <= run <= pos <= len,
            is_filler_between(template@, run, pos as int),
            run > 0 ==> !is_tag_filler(template@[run - 1]),
            pair ==> run <= seen && seen + 1 < pos && is_tag_opening(template@, seen),
            !pair ==> forall|at: int| run <= at && at + 1 < pos ==> !is_tag_opening(template@, at),
            brace <==> (pos > run && template@[pos - 1] == '{'),
            forall|opening: int, sigil: int|
                sigil < pos ==> !calls_partial_at(template@, opening, sigil),
        decreases len - pos,
    {
        let c = template.get_char(pos);
        if c == '>' && pair {
            assert(calls_partial_at(template@, seen, pos as int));
            return true;
        }
        proof {
            assert forall|opening: int| !calls_partial_at(template@, opening, pos as int) by {
                if calls_partial_at(template@, opening, pos as int) {
                    if opening < run {
                        assert(is_tag_filler(template@[run - 1]));
                    }
                }
            }
        }
        if c == '{' || c == '~' || c == '#' || c == ' ' || c == '\t' || c == '\n' || c == '\r' {
            if c == '{' && brace {
                proof {
                    if !pair {
                        seen = pos - 1;
                    }
                }
                pair = true;
            }
            brace = c == '{';
        } else {
            pair = false;
            brace = false;
            proof {
                run = pos + 1;
            }
        }
        pos = pos + 1;
    }
    assert forall|opening: int, sigil: int| !calls_partial_at(template@, opening, sigil) by {}
    false
}

/// Whether `c` can open a construct of a template that holds others of its
/// kind: a tag or an object, a sub-expression, an array.
pub open spec fn is_nesting_mark(c: char) -> bool {
    c == '{' || c == '(' || c == '['
}

/// How many characters of the template can open a nested construct. No
/// construct of the template is nested deeper than this. Every such
/// character counts, also in the text between the tags.
pub open spec fn nesting_marks(template: Seq<char>) -> nat {
    template.filter(|c: char| is_nesting_mark(c)).len()
}

/// The most nesting marks that a template may hold.
pub const MAX_NESTING_MARKS: usize = 256;

/// Whether the template holds more nesting marks than are allowed.
pub open spec fn nests_too_deep(template: Seq<char>) -> bool {
    nesting_marks(template) > MAX_NESTING_MARKS
}

/// Counts the nesting marks of a template against the limit.
pub fn has_too_many_marks(template: &str) -> (out: bool)
    ensures
        out == nests_too_deep(template@),
{
    let ghost pred = |c: char| is_nesting_mark(c);
    let len: usize = template.unicode_len();
    let mut count: usize = 0;
    let mut pos: usize = 0;
    assert(template@.take(0) =~= Seq::empty());
    while pos < len
        invariant
            len == template@.len(),
            pos <= len,
            count <= pos,
            pred == (|c: char| is_nesting_mark(c)),
            count == template@.take(pos as int).filter(pred).len(),
        decreases len - pos,
    {
        let c = template.get_char(pos);
        proof {
            let front = template@.take(pos as int);
            assert(template@.take(pos + 1) =~= front.push(c));
            front.lemma_filter_push(c, pred);
        }
        if c == '{' || c == '(' || c == '[' {
            count = count + 1;
        }
        pos = pos + 1;
    }
    assert(template@.take(len as int) =~= template@);
    count > MAX_NESTING_MARKS
}

/// Why a template that calls a partial is not rendered.
pub const PARTIAL_REFUSED: &'static str = "the template calls a partial";

/// Why a template with too many nesting marks is not rendered.
pub const DEPTH_REFUSED: &'static str = "the template holds too many braces, brackets and parentheses";

/// Why the library refuses a template before the engine sees it, or `None`
/// where it does not.
pub open spec fn refusal(template: Seq<char>) -> Option<Seq<char>> {
    if calls_partial(template) {
        Some(PARTIAL_REFUSED@)
    } else if nests_too_deep(template) {
        Some(DEPTH_REFUSED@)
    } else {
        None
    }
}

/// The opaque error of the template engine.
#[verifier::external_type_specification]
#[verifier::external_body]
pub struct ExRenderError(handlebars::RenderError);

/// The text that the template engine makes of a template and its data, with
/// the `terraformize` helper registered, or `None` where the engine reports
/// an error.
pub uninterp spec fn rendered_text(template: Seq<char>, data: Json) -> Option<Seq<char>>;

/// Renders `template` over `data` with a fresh engine that knows the
/// `terraformize` helper.
///
/// Trusted: `handlebars::Handlebars::render_template`, on an engine that
/// `Handlebars::new` made and to which `register_helper` added the helper.
/// The helper hands the text of its first parameter, as `Helper::param` and
/// `PathAndJson::render` give it, to [`terraform_name_of_param`]: for a
/// string that is its characters as they are, and for another value the text
/// that the engine prints for it. It puts the answer out with
/// `Output::write`, or fails with the reason that it was given, as a
/// `RenderErrorReason::Other`.
///
/// The contract claims that whether the engine renders, and the text where
/// it does, are a function of the template and the data. Of the text itself
/// it claims nothing, and of the error nothing at all: where several parts
/// of a tag fail, the engine reports the one that it happens to meet first.
/// Templates that the library refuses are left out: one that calls a
/// partial may never come back, and one that nests without bound may
/// exhaust the stack.
#[verifier::external_body]
pub(crate) fn render_template(template: &str, data: &serde_json::Value) -> (out: Result<
    String,
    handlebars::RenderError,
>)
    requires
        refusal(template@) is None,
    ensures
        match out {
            Ok(text) => rendered_text(template@, json_of(*data)) == Some(text@),
            Err(_) => rendered_text(template@, json_of(*data)) is None,
        },
{
    let helper = |h: &handlebars::Helper,
                  _: &handlebars::Handlebars,
                  _: &handlebars::Context,
                  _: &mut handlebars::RenderContext,
                  out: &mut dyn handlebars::Output|
     -> handlebars::HelperResult {
        let name = terraform_name_of_param(h.param(0).map(|p| p.render()));
        Ok(out.write(&name.map_err(|e| handlebars::RenderErrorReason::Other(e.reason))?)?)
    };
    let mut engine = handlebars::Handlebars::new();
    engine.register_helper("terraformize", Box::new(helper));
    engine.render_template(template, data)
}

/// The message of a template engine error.
///
/// Trusted: `to_string` of `handlebars::RenderError`, which gives the text
/// that its `Display` writes. Nothing is claimed of the text.
#[verifier::external_body]
pub(crate) fn render_error_message(error: &handlebars::RenderError) -> (out: String) {
    error.to_string()
}

/// The text that rendering a template over its data gives, or `None` where
/// it gives none: the library refuses the template, or the engine fails.
pub open spec fn render_outcome(template: Seq<char>, data: Json) -> Option<Seq<char>> {
    if refusal(template) is Some {
        None
    } else {
        rendered_text(template, data)
    }
}

/// Whether `reason` is a reason that a failed rendering of the template may
/// carry: the library's own where the library refused the template, and
/// otherwise any text but the empty one.
pub open spec fn is_failure_reason(template: Seq<char>, reason: Seq<char>) -> bool {
    &&& reason.len() > 0
    &&& refusal(template) matches Some(refused) ==> reason == refused
}

/// The library's reasons for a refusal are not empty.
pub proof fn lemma_refusal_is_a_failure_reason(template: Seq<char>)
    ensures
        refusal(template) matches Some(refused) ==> is_failure_reason(template, refused),
{
    reveal_strlit("the template calls a partial");
    reveal_strlit("the template holds too many braces, brackets and parentheses");
}

/// Renders a template over its data. A template that calls a partial, or
/// that holds too many nesting marks, is refused before the engine sees it.
/// An error of the engine comes back with the engine's message as its
/// reason, or with a stand-in where the engine gave none.
pub fn render(template: &str, data: &TemplateData) -> (out: Result<String, RenderingError>)
    ensures
        match out {
            Ok(text) => render_outcome(template@, data@) == Some(text@),
            Err(error) => render_outcome(template@, data@) is None && is_failure_reason(
                template@,
                error.reason@,
            ),
        },
{
    proof {
        lemma_refusal_is_a_failure_reason(template@);
    }
    if has_partial_call(template) {
        return Err(RenderingError { reason: String::from_str(PARTIAL_REFUSED) });
    }
    if has_too_many_marks(template) {
        return Err(RenderingError { reason: String::from_str(DEPTH_REFUSED) });
    }
    match render_template(template, data.as_json()) {
        Ok(text) => Ok(text),
        Err(error) => Err(RenderingError { reason: readable_reason(render_error_message(&error)) }),
    }
}

} // verus!
