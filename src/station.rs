use vstd::prelude::*;

verus! {

/// A radio station: a display name and a stream address.
#[derive(Clone, Debug)]
pub struct Station {
    pub name: String,
    pub url: String,
}

impl View for Station {
    type V = (Seq<char>, Seq<char>);

    open spec fn view(&self) -> (Seq<char>, Seq<char>) {
        (self.name@, self.url@)
    }
}

impl Station {
    pub fn new(name: String, url: String) -> (r: Station)
        ensures
            r.name == name,
            r.url == url,
    {
        Station { name, url }
    }
}

/// How the next key press is interpreted.
///
/// `Edit` and `Delete` carry the store index that was selected when the
/// mode was entered.
#[derive(PartialEq, Eq, Structural, Clone, Copy, Debug)]
pub enum Mode {
    Normal,
    Edit(usize),
    Add,
    Delete(usize),
    Exit,
}

/// The draft field that receives text input.
#[derive(PartialEq, Eq, Structural, Clone, Copy, Debug)]
pub enum EditField {
    Url,
    Name,
}

impl EditField {
    pub open spec fn toggled(self) -> EditField {
        match self {
            EditField::Url => EditField::Name,
            EditField::Name => EditField::Url,
        }
    }

    pub fn toggle(&self) -> (r: EditField)
        ensures
            r == self.toggled(),
            r != *self,
    {
        match self {
            EditField::Url => EditField::Name,
            EditField::Name => EditField::Url,
        }
    }
}

/// A key press, as far as the state machine tells keys apart.
#[derive(PartialEq, Eq, Structural, Clone, Copy, Debug)]
pub enum Key {
    Up,
    Down,
    Enter,
    Tab,
    Esc,
    Char(char),
    Other,
}

} // verus!
