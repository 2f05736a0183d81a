//! The two text templates of a bundle and their placeholder vocabulary.
use vstd::prelude::*;
use vstd::string::StringExecFns;
use crate::text::{lemma_replace_absent, occurs_in, replace_all, replaced};

verus! {

/// The descriptor that the game reads for a replay.
pub const DESCRIPTOR_TEMPLATE: &'static str = "\"replay_%handle%\"\n{\n\t\"handle\"\t\"%handle%\"\n\t\"map\"\t\"%map%\"\n\t\"complete\"\t\"1\"\n\t\"title\"\t\"%title%\"\n\t\"recon_filename\"\t\"%demo%\"\n\t\"spawn_tick\"\t\"-1\"\n\t\"death_tick\"\t\"-1\"\n\t\"status\"\t\"3\"\n\t\"length\"\t\"%length%\"\n\t\"record_time\"\n\t{\n\t\t\"date\"\t\"%date%\"\n\t\t\"time\"\t\"%time%\"\n\t\t\"seconds\"\t\"0\"\n\t}\n\t\"screenshots\"\n\t{\n\t\t\"screenshot\"\n\t\t{\n\t\t\t\"name\"\t\"%screenshot%\"\n\t\t\t\"width\"\t\"512\"\n\t\t\t\"height\"\t\"512\"\n\t\t\t\"base_width\"\t\"512\"\n\t\t\t\"base_height\"\t\"512\"\n\t\t}\n\t}\n}\n";

/// The material that wraps a replay's thumbnail texture.
pub const MATERIAL_TEMPLATE: &'static str = "\"UnlitGeneric\"\n{\n\t\"$basetexture\"\t\"vgui/replay/thumbnails/%screenshot%\"\n\t\"$vertexcolor\"\t1\n\t\"$vertexalpha\"\t1\n\t\"$translucent\"\t1\n\t\"$ignorez\"\t1\n}\n";

/// A placeholder that a template may hold, written `%word%`.
#[derive(Debug, Clone, Copy, PartialEq, Eq)]
pub enum Placeholder {
    ReplayName,
    MapName,
    Length,
    Title,
    Demo,
    Screenshot,
    Date,
    Time,
    Handle,
}

/// The text of a placeholder as it stands in a template.
pub open spec fn token_text(p: Placeholder) -> Seq<char> {
    match p {
        Placeholder::ReplayName => seq!['%', 'r', 'e', 'p', 'l', 'a', 'y', '_', 'n', 'a', 'm', 'e', '%'],
        Placeholder::MapName => seq!['%', 'm', 'a', 'p', '%'],
        Placeholder::Length => seq!['%', 'l', 'e', 'n', 'g', 't', 'h', '%'],
        Placeholder::Title => seq!['%', 't', 'i', 't', 'l', 'e', '%'],
        Placeholder::Demo => seq!['%', 'd', 'e', 'm', 'o', '%'],
        Placeholder::Screenshot => seq!['%', 's', 'c', 'r', 'e', 'e', 'n', 's', 'h', 'o', 't', '%'],
        Placeholder::Date => seq!['%', 'd', 'a', 't', 'e', '%'],
        Placeholder::Time => seq!['%', 't', 'i', 'm', 'e', '%'],
        Placeholder::Handle => seq!['%', 'h', 'a', 'n', 'd', 'l', 'e', '%'],
    }
}

impl Placeholder {
    /// The text of this placeholder as it stands in a template.
    pub fn token(self) -> (r: &'static str)
        ensures
            r@ == token_text(self),
            r@.len() > 0,
            r@[0] == '%',
    {
        proof {
            reveal_strlit("%replay_name%");
            reveal_strlit("%map%");
            reveal_strlit("%length%");
            reveal_strlit("%title%");
            reveal_strlit("%demo%");
            reveal_strlit("%screenshot%");
            reveal_strlit("%date%");
            reveal_strlit("%time%");
            reveal_strlit("%handle%");
        }
        match self {
            Placeholder::ReplayName => "%replay_name%",
            Placeholder::MapName => "%map%",
            Placeholder::Length => "%length%",
            Placeholder::Title => "%title%",
            Placeholder::Demo => "%demo%",
            Placeholder::Screenshot => "%screenshot%",
            Placeholder::Date => "%date%",
            Placeholder::Time => "%time%",
            Placeholder::Handle => "%handle%",
        }
    }
}

/// One placeholder and the text that takes its place.
pub struct Substitution {
    pub placeholder: Placeholder,
    pub value: String,
}

/// `t` after each substitution of `subs` in turn, every occurrence of its
/// placeholder replaced by its value.
pub open spec fn substituted(t: Seq<char>, subs: Seq<Substitution>) -> Seq<char>
    decreases subs.len(),
{
    if subs.len() == 0 {
        t
    } else {
        substituted(
            replaced(t, token_text(subs[0].placeholder), subs[0].value@),
            subs.drop_first(),
        )
    }
}

/// Whether no placeholder of `subs` occurs in `t`.
pub open spec fn free_of_tokens(t: Seq<char>, subs: Seq<Substitution>) -> bool {
    forall|i: int| 0 <= i < subs.len() ==> !occurs_in(t, token_text(#[trigger] subs[i].placeholder))
}

/// Renders a template: each substitution in turn, every occurrence of its
/// placeholder replaced by its value.
pub fn render_template(template: &str, subs: &Vec<Substitution>) -> (r: String)
    ensures
        r@ == substituted(template@, subs@),
{
    let mut out = String::from_str(template);
    let mut i: usize = 0;
    assert(subs@.subrange(0, subs@.len() as int) =~= subs@);
    while i < subs.len()
        invariant
            i <= subs@.len(),
            substituted(template@, subs@) == substituted(out@, subs@.subrange(i as int, subs@.len() as int)),
        decreases subs@.len() - i,
    {
        let ghost rest = subs@.subrange(i as int, subs@.len() as int);
        assert(rest.drop_first() =~= subs@.subrange(i + 1, subs@.len() as int));
        let s = &subs[i];
        out = replace_all(out.as_str(), s.placeholder.token(), s.value.as_str());
        i = i + 1;
    }
    assert(subs@.subrange(i as int, subs@.len() as int) =~= Seq::<Substitution>::empty());
    out
}

/// A template in which none of the placeholders occurs renders to itself.
pub proof fn lemma_render_plain_template(t: Seq<char>, subs: Seq<Substitution>)
    requires
        free_of_tokens(t, subs),
    ensures
        substituted(t, subs) == t,
    decreases subs.len(),
{
    if subs.len() > 0 {
        assert(!occurs_in(t, token_text(subs[0].placeholder)));
        lemma_replace_absent(t, token_text(subs[0].placeholder), subs[0].value@);
        assert forall|i: int| 0 <= i < subs.drop_first().len() implies !occurs_in(
            t,
            token_text(#[trigger] subs.drop_first()[i].placeholder),
        ) by {
            assert(subs.drop_first()[i] == subs[i + 1]);
        }
        lemma_render_plain_template(t, subs.drop_first());
    }
}

} // verus!
