use vstd::prelude::*;

verus! {

/// The mathematical value of a theme: its four strings as sequences of characters.
pub struct ThemeRecord {
    pub name: Seq<char>,
    pub background: Seq<char>,
    pub foreground: Seq<char>,
    pub primary: Seq<char>,
}

/// An immutable colour theme: a name and three opaque colour strings.
pub struct Theme {
    name: String,
    background: String,
    foreground: String,
    primary: String,
}

impl View for Theme {
    type V = ThemeRecord;

    closed spec fn view(&self) -> ThemeRecord {
        ThemeRecord {
            name: self.name@,
            background: self.background@,
            foreground: self.foreground@,
            primary: self.primary@,
        }
    }
}

impl Theme {
    /// Builds a theme holding copies of the four strings.
    pub fn new(name: &str, background: &str, foreground: &str, primary: &str) -> (r: Theme)
        ensures
            r@ == (ThemeRecord {
                name: name@,
                background: background@,
                foreground: foreground@,
                primary: primary@,
            }),
    {
        Theme {
            name: name.to_owned(),
            background: background.to_owned(),
            foreground: foreground.to_owned(),
            primary: primary.to_owned(),
        }
    }

    /// Whether this theme's name is exactly `name`.
    pub fn is_named(&self, name: &String) -> (r: bool)
        ensures
            r == (self@.name == name@),
    {
        self.name == *name
    }

    pub fn name(&self) -> (r: &str)
        ensures
            r@ == self@.name,
    {
        self.name.as_str()
    }

    pub fn background(&self) -> (r: &str)
        ensures
            r@ == self@.background,
    {
        self.background.as_str()
    }

    pub fn foreground(&self) -> (r: &str)
        ensures
            r@ == self@.foreground,
    {
        self.foreground.as_str()
    }

    pub fn primary(&self) -> (r: &str)
        ensures
            r@ == self@.primary,
    {
        self.primary.as_str()
    }
}

} // verus!
