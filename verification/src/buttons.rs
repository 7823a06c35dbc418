//! Digital inputs and small sets of them.

use vstd::prelude::*;

verus! {

/// A digital input: a key or a mouse button.
#[derive(Clone, Copy, Debug, PartialEq, Eq, Hash, Structural)]
pub enum Button {
    /// A physical key, named by its position on the keyboard.
    Key(u32),
    /// A logical key, named by what it means in the active layout.
    Named(u32),
    /// A mouse button.
    Mouse(u16),
    /// A key the platform could not identify.
    Unidentified,
}

impl Button {
    /// Whether the platform identified this input.
    pub open spec fn known(self) -> bool {
        !(self is Unidentified)
    }

    /// Whether the platform identified this input.
    pub fn is_known(&self) -> (known: bool)
        ensures
            known == self.known(),
    {
        match self {
            Button::Unidentified => false,
            _ => true,
        }
    }
}

/// A finite set of buttons, held as a list in which nothing occurs twice.
pub struct ButtonSet {
    items: Vec<Button>,
}

impl View for ButtonSet {
    type V = Set<Button>;

    closed spec fn view(&self) -> Set<Button> {
        self.items@.to_set()
    }
}

/// Taking the one occurrence of an element out of a list without repeats
/// takes that element, and nothing else, out of the set of its elements.
proof fn lemma_remove_from_distinct(s: Seq<Button>, i: int)
    requires
        s.no_duplicates(),
        0 <= i < s.len(),
    ensures
        s.remove(i).no_duplicates(),
        s.remove(i).to_set() == s.to_set().remove(s[i]),
{
    let r = s.remove(i);
    assert forall|b: Button| r.to_set().contains(b) <==> s.to_set().remove(s[i]).contains(
        b,
    ) by {
        if s.contains(b) && b != s[i] {
            let j = choose|j: int| 0 <= j < s.len() && s[j] == b;
            let at = if j < i {
                j
            } else {
                j - 1
            };
            assert(r[at] == b);
        }
    }
}

impl ButtonSet {
    /// Well-formedness: nothing occurs twice in the list.
    pub closed spec fn wf(&self) -> bool {
        self.items@.no_duplicates()
    }

    /// The empty set.
    pub fn new() -> (set: ButtonSet)
        ensures
            set.wf(),
            set@ == Set::<Button>::empty(),
    {
        let set = ButtonSet { items: Vec::new() };
        set
    }

    /// Where `button` stands in the list, if it is in the set.
    fn position(&self, button: Button) -> (place: Option<usize>)
        ensures
            match place {
                Some(i) => i < self.items@.len() && self.items@[i as int] == button,
                None => !self@.contains(button),
            },
    {
        let mut i: usize = 0;
        while i < self.items.len()
            invariant
                i <= self.items@.len(),
                forall|j: int| 0 <= j < i ==> self.items@[j] != button,
            decreases self.items@.len() - i,
        {
            if self.items[i] == button {
                return Some(i);
            }
            i = i + 1;
        }
        None
    }

    /// Whether `button` is in the set.
    pub fn contains(&self, button: Button) -> (found: bool)
        ensures
            found == self@.contains(button),
    {
        self.position(button).is_some()
    }

    /// Number of buttons in the set.
    pub fn len(&self) -> (n: usize)
        requires
            self.wf(),
        ensures
            n == self@.len(),
            self@.finite(),
    {
        proof {
            self.items@.unique_seq_to_set();
        }
        self.items.len()
    }

    /// Puts `button` into the set and says whether it was new.
    pub fn insert(&mut self, button: Button) -> (added: bool)
        requires
            old(self).wf(),
        ensures
            final(self).wf(),
            final(self)@ == old(self)@.insert(button),
            added == !old(self)@.contains(button),
    {
        if self.position(button).is_some() {
            false
        } else {
            let ghost before = self.items@;
            self.items.push(button);
            proof {
                before.lemma_push_to_set_commute(button);
            }
            true
        }
    }

    /// Takes `button` out of the set and says whether it was there.
    pub fn remove(&mut self, button: Button) -> (removed: bool)
        requires
            old(self).wf(),
        ensures
            final(self).wf(),
            final(self)@ == old(self)@.remove(button),
            removed == old(self)@.contains(button),
    {
        match self.position(button) {
            Some(i) => {
                proof {
                    lemma_remove_from_distinct(self.items@, i as int);
                }
                self.items.remove(i);
                true
            },
            None => false,
        }
    }

    /// A copy of the set.
    pub fn snapshot(&self) -> (copy: ButtonSet)
        requires
            self.wf(),
        ensures
            copy.wf(),
            copy@ == self@,
    {
        let mut items: Vec<Button> = Vec::new();
        let mut i: usize = 0;
        while i < self.items.len()
            invariant
                i <= self.items@.len(),
                items@ == self.items@.subrange(0, i as int),
            decreases self.items@.len() - i,
        {
            items.push(self.items[i]);
            i = i + 1;
        }
        assert(items@ == self.items@);
        ButtonSet { items }
    }
}

} // verus!
