//! The shape of log output: a module tag on every JSON line.
//!
//! Every JSON event begins with a `"bge_module"` attribute, so that the
//! router's lines can be told apart in mixed log streams. Human-readable
//! formats are left as they are.

use vstd::prelude::*;
use vstd::string::StrSliceExecFns;

use crate::text;
use crate::text::{join, text_eq};

verus! {

/// This program's name in log output.
pub const BGE_MODULE: &'static str = "router";

/// Wraps a JSON event formatter so that the rendered object always begins with
/// a `"bge_module"` key.
#[derive(Debug)]
pub struct PrependModule<F> {
    inner: F,
}

impl<F> PrependModule<F> {
    /// The formatter that renders the events.
    pub closed spec fn wrapped(self) -> F {
        self.inner
    }

    /// Wrap `inner` so that its rendered events are prefixed with the module key.
    pub fn new(inner: F) -> (wrapper: Self)
        ensures
            wrapper.wrapped() == inner,
    {
        PrependModule { inner }
    }

    /// The formatter that renders the events.
    pub fn inner(&self) -> (inner: &F)
        ensures
            *inner == self.wrapped(),
    {
        &self.inner
    }
}

/// What the object opens with: `{"bge_module":"router"`.
pub open spec fn module_tag() -> Seq<char> {
    "{\"bge_module\":\""@ + BGE_MODULE@ + "\""@
}

/// A line, taken without its line end, with the module tag.
pub open spec fn tagged_body(body: Seq<char>) -> Seq<char> {
    if body.len() == 0 || body[0] != '{' {
        body
    } else if body.len() >= 2 && body[1] == '}' {
        module_tag() + "}"@ + body.skip(2)
    } else {
        module_tag() + ","@ + body.skip(1)
    }
}

/// A rendered event with the module tag: a JSON object gets the tag as its
/// first attribute, anything else stays as it is. A line end stays the line
/// end.
pub open spec fn tagged(rendered: Seq<char>) -> Seq<char> {
    if rendered.len() > 0 && rendered.last() == '\n' {
        tagged_body(rendered.drop_last()).push('\n')
    } else {
        tagged_body(rendered)
    }
}

/// Tag a line without its line end.
fn tag_body(body: &str) -> (line: String)
    ensures
        line@ == tagged_body(body@),
{
    let n: usize = body.unicode_len();
    if n == 0 || body.get_char(0) != '{' {
        return body.to_owned();
    }
    let opened = join("{\"bge_module\":\"", BGE_MODULE);
    let tag = join(opened.as_str(), "\"");
    if n >= 2 && body.get_char(1) == '}' {
        let closed = join(tag.as_str(), "}");
        let rest = body.substring_char(2, n);
        assert(rest@ =~= body@.skip(2));
        join(closed.as_str(), rest)
    } else {
        let more = join(tag.as_str(), ",");
        let rest = body.substring_char(1, n);
        assert(rest@ =~= body@.skip(1));
        join(more.as_str(), rest)
    }
}

/// Tag a rendered event with the module.
pub fn prepend_module(rendered: &str) -> (line: String)
    ensures
        line@ == tagged(rendered@),
{
    let n: usize = rendered.unicode_len();
    if n > 0 && rendered.get_char(n - 1) == '\n' {
        let body = rendered.substring_char(0, n - 1);
        assert(body@ =~= rendered@.drop_last());
        let line = tag_body(body);
        proof {
            reveal_strlit("\n");
        }
        let ended = join(line.as_str(), "\n");
        assert(ended@ =~= line@.push('\n'));
        ended
    } else {
        tag_body(rendered)
    }
}

/// Whether to log JSON: as the format setting says, and without one that says
/// either, when the output is not a terminal.
pub open spec fn json_wanted(format: Option<Seq<char>>, terminal: bool) -> bool {
    match format {
        Some(f) => if f == "text"@ || f == "pretty"@ {
            false
        } else if f == "json"@ {
            true
        } else {
            !terminal
        },
        None => !terminal,
    }
}

/// Whether to log JSON, given `BGE_ROUTER_LOG_FORMAT` and whether the output is
/// a terminal.
pub fn wants_json(format: Option<&str>, terminal: bool) -> (json: bool)
    ensures
        json == json_wanted(
            match format {
                Some(f) => Some(f@),
                None => None,
            },
            terminal,
        ),
{
    match format {
        Some(f) => {
            if text_eq(f, "text") || text_eq(f, "pretty") {
                false
            } else if text_eq(f, "json") {
                true
            } else {
                !terminal
            }
        },
        None => !terminal,
    }
}

/// Every JSON object that is logged begins with the module tag, and all that
/// stood in it, line end included, follows verbatim.
pub proof fn object_keeps_its_attributes(attributes: Seq<char>)
    requires
        attributes.len() > 0,
        attributes[0] != '}',
    ensures
        tagged(seq!['{'] + attributes) == module_tag() + ","@ + attributes,
        text::begins_with(tagged(seq!['{'] + attributes), module_tag()),
{
    let rendered = seq!['{'] + attributes;
    let wanted = module_tag() + ","@ + attributes;
    assert(rendered.last() == attributes.last());
    assert(rendered.skip(1) =~= attributes);
    if rendered.last() == '\n' {
        let body = rendered.drop_last();
        if attributes.len() == 1 {
            assert(body =~= seq!['{']);
            assert(body.skip(1) =~= Seq::<char>::empty());
            assert(tagged(rendered) =~= wanted);
        } else {
            assert(body[0] == '{' && body[1] == attributes[0]);
            assert(body.skip(1) =~= attributes.drop_last());
            assert(tagged(rendered) =~= wanted);
        }
    } else {
        assert(rendered[1] == attributes[0]);
        assert(tagged(rendered) =~= wanted);
    }
    assert(wanted.subrange(0, module_tag().len() as int) =~= module_tag());
}

/// An empty JSON object becomes one with the module tag alone.
pub proof fn empty_object_gets_the_tag_alone()
    ensures
        tagged(seq!['{', '}']) == module_tag() + "}"@,
        tagged(seq!['{', '}', '\n']) == (module_tag() + "}"@).push('\n'),
{
    let bare = seq!['{', '}'];
    assert(bare.skip(2) =~= Seq::<char>::empty());
    assert(tagged(bare) =~= module_tag() + "}"@);
    assert(seq!['{', '}', '\n'].drop_last() =~= bare);
    assert(tagged(seq!['{', '}', '\n']) =~= (module_tag() + "}"@).push('\n'));
}

/// What is no JSON object passes through unchanged.
pub proof fn other_output_is_unchanged(rendered: Seq<char>)
    requires
        rendered.len() == 0 || rendered[0] != '{',
    ensures
        tagged(rendered) == rendered,
{
    if rendered.len() > 0 && rendered.last() == '\n' {
        let body = rendered.drop_last();
        assert(body.len() == 0 || body[0] == rendered[0]);
        assert(body.push('\n') =~= rendered);
    }
}

/// The tag names the module router.
pub proof fn tag_names_the_router()
    ensures
        module_tag() == "{\"bge_module\":\"router\""@,
{
    reveal_strlit("{\"bge_module\":\"");
    reveal_strlit("router");
    reveal_strlit("\"");
    reveal_strlit("{\"bge_module\":\"router\"");
    assert(module_tag() =~= "{\"bge_module\":\"router\""@);
}

/// An empty JSON object gets the tag as its one attribute, and what follows the
/// object stays.
pub proof fn empty_object_keeps_what_follows(rest: Seq<char>)
    ensures
        tagged(seq!['{', '}'] + rest) == module_tag() + "}"@ + rest,
{
    let rendered = seq!['{', '}'] + rest;
    let wanted = module_tag() + "}"@ + rest;
    assert(rendered[0] == '{' && rendered[1] == '}');
    assert(rendered.skip(2) =~= rest);
    if rest.len() > 0 {
        assert(rendered.last() == rest.last());
    } else {
        assert(rendered.last() == '}');
    }
    if rendered.last() == '\n' {
        let body = rendered.drop_last();
        assert(body[0] == '{' && body[1] == '}');
        assert(body.skip(2) =~= rest.drop_last());
        assert(rest =~= rest.drop_last().push('\n'));
        assert(tagged(rendered) =~= wanted);
    } else {
        assert(tagged(rendered) =~= wanted);
    }
}

/// An object that is cut off behind its brace gets the tag and a comma.
pub proof fn bare_brace_gets_the_tag()
    ensures
        tagged(seq!['{']) == module_tag() + ","@,
{
    assert(seq!['{'].skip(1) =~= Seq::<char>::empty());
    assert(tagged(seq!['{']) =~= module_tag() + ","@);
}

/// Text is logged exactly when the format asks for it, or asks for nothing that
/// is known and the output is a terminal.
pub proof fn formats_are_obeyed(format: Seq<char>, terminal: bool)
    ensures
        format == "text"@ || format == "pretty"@ ==> !json_wanted(Some(format), terminal),
        format == "json"@ ==> json_wanted(Some(format), terminal),
        format != "text"@ && format != "pretty"@ && format != "json"@ ==> json_wanted(
            Some(format),
            terminal,
        ) == !terminal,
        json_wanted(None, terminal) == !terminal,
{
    reveal_strlit("text");
    reveal_strlit("json");
    reveal_strlit("pretty");
    assert("text"@[0] == 't' && "json"@[0] == 'j' && "pretty"@[0] == 'p');
}

}
