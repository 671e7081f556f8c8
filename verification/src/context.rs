//! Render contexts: the flat name-to-value mapping handed to the template
//! engine for one rendering pass, and the two builders that derive a
//! context from a status record or from one status group.

use vstd::prelude::*;

use crate::records::{GroupModel, StatusGroup, StatusModel, StatusRecord};
use crate::text::{dec_chars, str_eq, u64_to_dec};

verus! {

/// Looks a name up in a context model: the first entry with that name wins.
pub open spec fn ctx_lookup(ctx: Seq<(Seq<char>, Seq<char>)>, name: Seq<char>) -> Option<
    Seq<char>,
>
    decreases ctx.len(),
{
    if ctx.len() == 0 {
        None
    } else if ctx[0].0 == name {
        Some(ctx[0].1)
    } else {
        ctx_lookup(ctx.drop_first(), name)
    }
}

/// A flat mapping from template field names to string values. Entries are
/// kept in insertion order and the first entry with a given name wins.
pub struct RenderContext {
    pub entries: Vec<(String, String)>,
}

impl View for RenderContext {
    type V = Seq<(Seq<char>, Seq<char>)>;

    open spec fn view(&self) -> Seq<(Seq<char>, Seq<char>)> {
        self.entries@.map_values(|p: (String, String)| (p.0@, p.1@))
    }
}

impl RenderContext {
    /// An empty context.
    pub fn new() -> (r: RenderContext)
        ensures
            r@ == Seq::<(Seq<char>, Seq<char>)>::empty(),
    {
        let r = RenderContext { entries: Vec::new() };
        proof {
            assert(r@ =~= Seq::<(Seq<char>, Seq<char>)>::empty());
        }
        r
    }

    /// Appends one field.
    pub fn set(&mut self, name: &str, value: String)
        ensures
            final(self)@ == old(self)@.push((name@, value@)),
    {
        self.entries.push((name.to_owned(), value));
        proof {
            assert(self@ =~= old(self)@.push((name@, value@)));
        }
    }

    /// The value of the first entry named `name`, if any.
    pub fn get(&self, name: &str) -> (r: Option<&String>)
        ensures
            match r {
                Some(v) => ctx_lookup(self@, name@) == Some(v@),
                None => ctx_lookup(self@, name@) is None,
            },
    {
        let n = self.entries.len();
        let mut i: usize = 0;
        proof {
            assert(self@.skip(0) =~= self@);
        }
        while i < n
            invariant
                n == self.entries@.len(),
                0 <= i <= n,
                ctx_lookup(self@, name@) == ctx_lookup(self@.skip(i as int), name@),
            decreases n - i,
        {
            proof {
                assert(self@.skip(i as int)[0] == self@[i as int]);
            }
            if str_eq(self.entries[i].0.as_str(), name) {
                return Some(&self.entries[i].1);
            }
            proof {
                assert(self@.skip(i as int).drop_first() =~= self@.skip(i as int + 1));
            }
            i = i + 1;
        }
        proof {
            assert(self@.skip(n as int) =~= Seq::<(Seq<char>, Seq<char>)>::empty());
        }
        None
    }
}

/// The computed page title: `"{code} - {reason}"`.
pub open spec fn title_model(r: StatusModel) -> Seq<char> {
    r.code + " - "@ + r.reason
}

/// The computed page description: a fixed phrase followed by
/// `"{code} - {reason} - {description}"`, the raw description reused
/// verbatim.
pub open spec fn description_model(r: StatusModel) -> Seq<char> {
    "Http Status Page - Returns the status, while presenting a page with the code, reason, and description. In this case: "@
        + r.code + " - "@ + r.reason + " - "@ + r.description
}

/// The page context of one status record: the two computed fields plus the
/// four raw fields under their fixed template names.
pub open spec fn page_context_model(r: StatusModel) -> Seq<(Seq<char>, Seq<char>)> {
    seq![
        ("title"@, title_model(r)),
        ("description"@, description_model(r)),
        ("status_code"@, r.code),
        ("status_reason"@, r.reason),
        ("status_description"@, r.description),
        ("status_spec_link"@, r.link),
    ]
}

/// Derives the page context of one status record.
pub fn build_page_context(r: &StatusRecord) -> (c: RenderContext)
    ensures
        c@ == page_context_model(r@),
{
    let mut title = r.code.clone();
    title.append(" - ");
    title.append(r.reason.as_str());

    let mut desc =
        "Http Status Page - Returns the status, while presenting a page with the code, reason, and description. In this case: ".to_owned();
    desc.append(r.code.as_str());
    desc.append(" - ");
    desc.append(r.reason.as_str());
    desc.append(" - ");
    desc.append(r.description.as_str());

    let mut c = RenderContext::new();
    c.set("title", title);
    c.set("description", desc);
    c.set("status_code", r.code.clone());
    c.set("status_reason", r.reason.clone());
    c.set("status_description", r.description.clone());
    c.set("status_spec_link", r.link.clone());
    proof {
        assert(c@ =~= page_context_model(r@));
    }
    c
}

/// The codes of one group joined with `", "`, each in decimal.
pub open spec fn codes_join_model(codes: Seq<u64>) -> Seq<char>
    decreases codes.len(),
{
    if codes.len() == 0 {
        Seq::<char>::empty()
    } else if codes.len() == 1 {
        dec_chars(codes[0] as nat)
    } else {
        dec_chars(codes[0] as nat) + ", "@ + codes_join_model(codes.drop_first())
    }
}

/// Joins a group's codes with `", "`, each rendered in decimal.
pub fn join_codes(codes: &Vec<u64>) -> (r: String)
    ensures
        r@ == codes_join_model(codes@),
{
    let n = codes.len();
    let mut out = String::new();
    let mut i: usize = n;
    while i > 0
        invariant
            n == codes@.len(),
            0 <= i <= n,
            out@ == codes_join_model(codes@.skip(i as int)),
        decreases i,
    {
        i = i - 1;
        let piece = u64_to_dec(codes[i]);
        let next = if i + 1 < n {
            piece.concat(", ").concat(out.as_str())
        } else {
            piece
        };
        out = next;
        proof {
            assert(codes@.skip(i as int)[0] == codes@[i as int]);
            assert(codes@.skip(i as int).drop_first() =~= codes@.skip(i as int + 1));
        }
    }
    proof {
        assert(codes@.skip(0) =~= codes@);
    }
    out
}

/// The index context of one status group: its three string fields plus the
/// joined code list, under the group template's field names.
pub open spec fn group_context_model(g: GroupModel) -> Seq<(Seq<char>, Seq<char>)> {
    seq![
        ("title"@, g.title),
        ("description"@, g.description),
        ("link"@, g.link),
        ("codes"@, codes_join_model(g.codes)),
    ]
}

/// Derives the index context of one status group.
pub fn build_group_context(g: &StatusGroup) -> (c: RenderContext)
    ensures
        c@ == group_context_model(g@),
{
    let mut c = RenderContext::new();
    c.set("title", g.title.clone());
    c.set("description", g.description.clone());
    c.set("link", g.link.clone());
    c.set("codes", join_codes(&g.codes));
    proof {
        assert(c@ =~= group_context_model(g@));
    }
    c
}

} // verus!
