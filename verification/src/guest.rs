use vstd::prelude::*;

verus! {

/// What `str::to_lowercase` returns; it depends on the characters alone.
pub uninterp spec fn lower_of(s: Seq<char>) -> Seq<char>;

/// What `str::trim` returns; it depends on the characters alone.
pub uninterp spec fn trim_of(s: Seq<char>) -> Seq<char>;

/// Relies on str::to_lowercase: the result depends on the characters alone.
#[verifier::external_body]
fn lowercase(s: &str) -> (r: String)
    ensures
        r@ == lower_of(s@),
{
    s.to_lowercase()
}

/// Relies on str::trim: the result depends on the characters alone.
#[verifier::external_body]
fn trimmed(s: &str) -> (r: &str)
    ensures
        r@ == trim_of(s@),
{
    s.trim()
}

/// How a visitor on the guest list is received at the door.
pub enum VisitorAction {
    Accept,
    AcceptWithNote { note: String },
    Refuse,
    Probation,
}

/// A guest-list entry: the name is kept lowercased so lookups are
/// case-insensitive.
pub struct Visitor {
    pub name: String,
    pub greeting: String,
    pub action: VisitorAction,
    pub age: i8,
}

impl Visitor {
    /// A fresh entry: the given name lowercased, the greeting kept verbatim.
    pub fn new(name: &str, greeting: &str, action: VisitorAction, age: i8) -> (v: Visitor)
        ensures
            v.name@ == lower_of(name@),
            v.greeting@ == greeting@,
            v.action == action,
            v.age == age,
    {
        Visitor { name: lowercase(name), greeting: greeting.to_owned(), action, age }
    }

    /// Whether greeting this visitor must include the warning not to serve
    /// alcohol: exactly for an accepted-with-note visitor under 21.
    pub fn needs_alcohol_warning(&self) -> (r: bool)
        ensures
            r == (self.action is AcceptWithNote && self.age < 21),
    {
        match &self.action {
            VisitorAction::AcceptWithNote { .. } => self.age < 21,
            _ => false,
        }
    }
}

/// A raw name as typed at the prompt, normalised the way the guest list
/// stores names: surrounding whitespace removed, then lowercased.
pub fn normalize_name(raw: &str) -> (r: String)
    ensures
        r@ == lower_of(trim_of(raw@)),
{
    lowercase(trimmed(raw))
}

/// The first entry of the guest list whose stored name equals `name`, if any.
pub fn find_visitor(list: &Vec<Visitor>, name: &String) -> (r: Option<usize>)
    ensures
        match r {
            Some(i) => {
                &&& i < list@.len()
                &&& list@[i as int].name@ == name@
                &&& forall|j: int| 0 <= j < i ==> list@[j].name@ != name@
            },
            None => forall|j: int| 0 <= j < list@.len() ==> list@[j].name@ != name@,
        },
{
    let mut i: usize = 0;
    while i < list.len()
        invariant
            i <= list@.len(),
            forall|j: int| 0 <= j < i ==> list@[j].name@ != name@,
        decreases list@.len() - i,
    {
        if list[i].name.eq(name) {
            return Some(i);
        }
        i = i + 1;
    }
    None
}

} // verus!
