//! What the home page shows of the academy's name.

use crate::config::academy_data::{ACADEMY_NAME, ACADEMY_TAGLINE};
use crate::models::academy::AcademyInfo;
use crate::text::{from_chars, to_chars};
use vstd::prelude::*;

verus! {

/// The star that a name may begin with.
pub const STAR: char = '☆';

/// The star of a name: its first character where that is the star.
pub open spec fn name_star(name: Seq<char>) -> Seq<char> {
    if name.len() > 0 && name[0] == STAR {
        seq![STAR]
    } else {
        Seq::empty()
    }
}

/// A name without its star.
pub open spec fn name_after_star(name: Seq<char>) -> Seq<char> {
    name.skip(name_star(name).len() as int)
}

/// The accent of a name: the last character of what follows the star.
pub open spec fn name_accent(name: Seq<char>) -> Seq<char> {
    if name_after_star(name).len() > 0 {
        seq![name_after_star(name).last()]
    } else {
        Seq::empty()
    }
}

/// The base of a name: what stands between the star and the accent.
pub open spec fn name_base(name: Seq<char>) -> Seq<char> {
    if name_after_star(name).len() > 0 {
        name_after_star(name).drop_last()
    } else {
        Seq::empty()
    }
}

/// What the template of the home page is filled with.
#[derive(Debug, Clone)]
pub struct HomepageContext {
    pub academy_name: String,
    pub academy_name_star: String,
    pub academy_name_base: String,
    pub academy_name_accent: String,
    pub tagline: String,
}

/// The star, the base and the accent of a name fit together to the name.
pub proof fn lemma_name_parts_make_name(name: Seq<char>)
    ensures
        name_star(name) + name_base(name) + name_accent(name) == name,
{
    assert(name_star(name) + name_base(name) + name_accent(name) =~= name);
}

/// The context for the home page of an academy with the given name and tagline.
pub fn homepage_context(name: String, tagline: String) -> (context: HomepageContext)
    ensures
        context.academy_name@ == name@,
        context.academy_name_star@ == name_star(name@),
        context.academy_name_base@ == name_base(name@),
        context.academy_name_accent@ == name_accent(name@),
        context.tagline@ == tagline@,
{
    let chars = to_chars(name.as_str());
    let n: usize = chars.len();
    let start: usize = if n > 0 && chars[0] == STAR {
        1
    } else {
        0
    };
    let end: usize = if n > start {
        n - 1
    } else {
        start
    };
    let star = from_chars(&chars, 0, start);
    let base = from_chars(&chars, start, end);
    let accent = from_chars(&chars, end, n);
    proof {
        assert(star@ =~= name_star(name@));
        assert(base@ =~= name_base(name@));
        assert(accent@ =~= name_accent(name@));
    }
    HomepageContext {
        academy_name: name,
        academy_name_star: star,
        academy_name_base: base,
        academy_name_accent: accent,
        tagline,
    }
}

/// The context for the home page of the academy.
pub fn get_homepage() -> (context: HomepageContext)
    ensures
        context.academy_name@ == ACADEMY_NAME@,
        context.academy_name_star@ == name_star(ACADEMY_NAME@),
        context.academy_name_base@ == name_base(ACADEMY_NAME@),
        context.academy_name_accent@ == name_accent(ACADEMY_NAME@),
        context.tagline@ == ACADEMY_TAGLINE@,
{
    let info = AcademyInfo::default();
    homepage_context(info.name, info.tagline)
}

} // verus!
