use crate::random::random_below;
use crate::theme::{Theme, ThemeRecord};
use vstd::prelude::*;

verus! {

/// How many themes the table holds.
pub const THEME_COUNT: usize = 2;

pub open spec fn warm_record() -> ThemeRecord {
    ThemeRecord {
        name: "warm"@,
        background: "#B270A2"@,
        foreground: "#FF8FB1"@,
        primary: "#FCE2DB"@,
    }
}

pub open spec fn cold_record() -> ThemeRecord {
    ThemeRecord {
        name: "cold"@,
        background: "#AFB4FF"@,
        foreground: "#9C9EFE"@,
        primary: "#A66CFF"@,
    }
}

/// The fixed table, in definition order.
pub open spec fn theme_table() -> Seq<ThemeRecord> {
    seq![warm_record(), cold_record()]
}

/// The first record of `t` whose name is exactly `name`, if any.
pub open spec fn first_named(t: Seq<ThemeRecord>, name: Seq<char>) -> Option<ThemeRecord>
    decreases t.len(),
{
    if t.len() == 0 {
        None
    } else if t[0].name == name {
        Some(t[0])
    } else {
        first_named(t.drop_first(), name)
    }
}

/// The theme that a lookup by `name` answers: the first match, else the first record.
pub open spec fn theme_named(name: Seq<char>) -> ThemeRecord {
    match first_named(theme_table(), name) {
        Some(r) => r,
        None => theme_table()[0],
    }
}

/// The records that a list of themes holds, in order.
pub open spec fn views(v: Seq<Theme>) -> Seq<ThemeRecord> {
    v.map_values(|t: Theme| t@)
}

/// `first_named` is the record at the first index whose name matches, or none.
proof fn lemma_first_named_at(t: Seq<ThemeRecord>, name: Seq<char>, i: int)
    requires
        0 <= i <= t.len(),
        forall|j: int| 0 <= j < i ==> t[j].name != name,
        i < t.len() ==> t[i].name == name,
    ensures
        first_named(t, name) == if i < t.len() {
            Some(t[i])
        } else {
            None
        },
    decreases t.len(),
{
    if t.len() > 0 && i > 0 {
        assert(t[0].name != name);
        let rest = t.drop_first();
        assert forall|j: int| 0 <= j < i - 1 implies rest[j].name != name by {
            assert(t[j + 1].name != name);
        }
        lemma_first_named_at(rest, name, i - 1);
    }
}

proof fn lemma_table_names_differ()
    ensures
        theme_table()[0].name != theme_table()[1].name,
{
    reveal_strlit("warm");
    reveal_strlit("cold");
    assert(theme_table()[0].name[0] != theme_table()[1].name[0]);
}

/// Builds the table: the "warm" theme, then the "cold" theme.
pub fn color_generate() -> (r: Vec<Theme>)
    ensures
        r@.len() == THEME_COUNT,
        views(r@) == theme_table(),
{
    let warm = Theme::new("warm", "#B270A2", "#FF8FB1", "#FCE2DB");
    let cold = Theme::new("cold", "#AFB4FF", "#9C9EFE", "#A66CFF");
    let r = vec![warm, cold];
    assert(views(r@) =~= theme_table());
    r
}

/// Looks a theme up by exact name; an unknown name gives the first theme of the table.
pub fn color_changer(name: &str) -> (r: Theme)
    ensures
        r@ == theme_named(name@),
{
    let mut list = color_generate();
    let wanted = name.to_owned();
    let mut i: usize = 0;
    while i < list.len()
        invariant
            0 <= i <= list@.len(),
            views(list@) == theme_table(),
            wanted@ == name@,
            forall|j: int| 0 <= j < i ==> theme_table()[j].name != name@,
        decreases list@.len() - i,
    {
        if list[i].is_named(&wanted) {
            assert(list@[i as int]@ == theme_table()[i as int]);
            proof {
                lemma_first_named_at(theme_table(), name@, i as int);
            }
            return list.remove(i);
        }
        assert(list@[i as int]@ == theme_table()[i as int]);
        i = i + 1;
    }
    proof {
        lemma_first_named_at(theme_table(), name@, i as int);
    }
    assert(list@[0]@ == theme_table()[0]);
    list.remove(0)
}

/// The theme at `index` in the table.
pub fn color_at(index: usize) -> (r: Theme)
    requires
        index < THEME_COUNT,
    ensures
        r@ == theme_table()[index as int],
{
    let mut list = color_generate();
    assert(list@[index as int]@ == theme_table()[index as int]);
    list.remove(index)
}

/// A theme of the table, drawn at random.
pub fn color_random() -> (r: Theme)
    ensures
        theme_table().contains(r@),
{
    let index = random_below(THEME_COUNT);
    let r = color_at(index);
    assert(theme_table()[index as int] == r@);
    r
}

/// A name that no theme of the table has gives the first theme of the table.
pub proof fn lemma_unknown_name_falls_back(name: Seq<char>)
    requires
        forall|i: int| 0 <= i < theme_table().len() ==> theme_table()[i].name != name,
    ensures
        theme_named(name) == theme_table()[0],
{
    lemma_first_named_at(theme_table(), name, theme_table().len() as int);
}

/// Looking a theme up by its own name gives that theme back.
pub proof fn lemma_each_theme_found_by_name(i: int)
    requires
        0 <= i < theme_table().len(),
    ensures
        theme_named(theme_table()[i].name) == theme_table()[i],
{
    lemma_table_names_differ();
    lemma_first_named_at(theme_table(), theme_table()[i].name, i);
}

} // verus!
