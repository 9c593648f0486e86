//! The window's action group: a string-keyed dispatch table.
//!
//! Each action is a named, parameterless command.  A name is unique within
//! its owning group, and looking a name up yields the command registered
//! under it, so a menu entry or keyboard accelerator that fires a name
//! always reaches one well-defined behaviour.

use vstd::prelude::*;

verus! {

/// The three commands an editor window answers to.
#[derive(Clone, Copy, PartialEq, Eq, Structural, Debug)]
pub enum Command {
    /// Present a file-selection dialog and load the chosen file.
    Open,
    /// Present a file-selection dialog and write the buffer to the choice.
    Save,
    /// Tear the window down.
    Close,
}

/// A group of named actions owned by one window.
pub struct ActionGroup {
    entries: Vec<(String, Command)>,
}

impl ActionGroup {
    /// The group as a map from action name to command.
    pub closed spec fn view(&self) -> Map<Seq<char>, Command> {
        Map::new(
            |n: Seq<char>|
                exists|i: int|
                    0 <= i < self.entries@.len() && #[trigger] self.entries@[i].0@ == n,
            |n: Seq<char>|
                {
                    let i = choose|i: int|
                        0 <= i < self.entries@.len() && #[trigger] self.entries@[i].0@ == n;
                    self.entries@[i].1
                },
        )
    }

    /// The group's invariant: no two actions share a name.
    pub closed spec fn wf(&self) -> bool {
        forall|i: int, j: int|
            0 <= i < self.entries@.len() && 0 <= j < self.entries@.len() && i != j
                ==> #[trigger] self.entries@[i].0@ != #[trigger] self.entries@[j].0@
    }

    /// An empty group.
    pub fn new() -> (g: ActionGroup)
        ensures
            g.wf(),
            g@ == Map::<Seq<char>, Command>::empty(),
    {
        let g = ActionGroup { entries: Vec::new() };
        proof {
            assert(g@ =~= Map::<Seq<char>, Command>::empty());
        }
        g
    }

    /// Add a command under `name`.  Succeeds exactly when the name is not
    /// yet taken; a refused registration leaves the group unchanged.
    pub fn register(&mut self, name: String, command: Command) -> (ok: bool)
        requires
            old(self).wf(),
        ensures
            final(self).wf(),
            ok == !old(self)@.contains_key(name@),
            ok ==> final(self)@ == old(self)@.insert(name@, command),
            !ok ==> final(self)@ == old(self)@,
    {
        let taken = self.contains(name.as_str());
        if taken {
            return false;
        }
        let ghost pre = *self;
        let ghost key = name@;
        self.entries.push((name, command));
        proof {
            let n = pre.entries@.len() as int;
            assert forall|i: int, j: int|
                0 <= i < self.entries@.len() && 0 <= j < self.entries@.len() && i != j implies #[trigger] self.entries@[i].0@
                != #[trigger] self.entries@[j].0@ by {
                if i < n && j < n {
                    assert(pre.entries@[i].0@ != pre.entries@[j].0@);
                } else if i == n {
                    assert(pre.entries@[j].0@ != key);
                } else if j == n {
                    assert(pre.entries@[i].0@ != key);
                }
            };
            assert forall|k: Seq<char>| #[trigger]
                self@.contains_key(k) == pre@.insert(key, command).contains_key(k) by {
                if k == key {
                    assert(self.entries@[n].0@ == k);
                } else {
                    if pre@.contains_key(k) {
                        let i = choose|i: int|
                            0 <= i < pre.entries@.len() && #[trigger] pre.entries@[i].0@ == k;
                        assert(self.entries@[i].0@ == k);
                    }
                    if self@.contains_key(k) {
                        let i = choose|i: int|
                            0 <= i < self.entries@.len() && #[trigger] self.entries@[i].0@ == k;
                        assert(i < n);
                        assert(pre.entries@[i].0@ == k);
                    }
                }
            };
            assert forall|k: Seq<char>| self@.contains_key(k) implies self@[k] == pre@.insert(
                key,
                command,
            )[k] by {
                let i = choose|i: int|
                    0 <= i < self.entries@.len() && #[trigger] self.entries@[i].0@ == k;
                if k == key {
                    assert(i == n);
                } else {
                    assert(i < n);
                    let j = choose|j: int|
                        0 <= j < pre.entries@.len() && #[trigger] pre.entries@[j].0@ == k;
                    assert(pre.entries@[i].0@ == k);
                    assert(j == i);
                }
            };
            assert(self@ =~= pre@.insert(key, command));
        }
        true
    }

    /// Whether an action of the given name is registered.
    pub fn contains(&self, name: &str) -> (r: bool)
        ensures
            r == self@.contains_key(name@),
    {
        let owned = name.to_owned();
        let mut i: usize = 0;
        while i < self.entries.len()
            invariant
                i <= self.entries@.len(),
                owned@ == name@,
                forall|k: int| 0 <= k < i ==> #[trigger] self.entries@[k].0@ != name@,
            decreases self.entries@.len() - i,
        {
            if self.entries[i].0 == owned {
                assert(self.entries@[i as int].0@ == name@);
                return true;
            }
            i = i + 1;
        }
        false
    }

    /// Resolve a name to its registered command, or nothing when the name
    /// is unknown to the group.
    pub fn lookup(&self, name: &str) -> (r: Option<Command>)
        requires
            self.wf(),
        ensures
            match r {
                Some(c) => self@.contains_key(name@) && self@[name@] == c,
                None => !self@.contains_key(name@),
            },
    {
        let owned = name.to_owned();
        let mut i: usize = 0;
        while i < self.entries.len()
            invariant
                self.wf(),
                i <= self.entries@.len(),
                owned@ == name@,
                forall|k: int| 0 <= k < i ==> #[trigger] self.entries@[k].0@ != name@,
            decreases self.entries@.len() - i,
        {
            if self.entries[i].0 == owned {
                proof {
                    assert(self.entries@[i as int].0@ == name@);
                    let j = choose|j: int|
                        0 <= j < self.entries@.len() && #[trigger] self.entries@[j].0@ == name@;
                    assert(j == i);
                }
                return Some(self.entries[i].1);
            }
            i = i + 1;
        }
        None
    }
}

/// The standard group of an editor window: the three commands registered
/// under the names the window's menu entries and accelerators fire.
pub fn window_defaults() -> (g: ActionGroup)
    ensures
        g.wf(),
        g@.contains_key("open"@) && g@["open"@] == Command::Open,
        g@.contains_key("save"@) && g@["save"@] == Command::Save,
        g@.contains_key("close"@) && g@["close"@] == Command::Close,
{
    proof {
        reveal_strlit("open");
        reveal_strlit("save");
        reveal_strlit("close");
        assert("open"@[0] == 'o' && "save"@[0] == 's' && "close"@[0] == 'c');
    }
    let mut g = ActionGroup::new();
    let _ = g.register("open".to_owned(), Command::Open);
    let _ = g.register("save".to_owned(), Command::Save);
    let _ = g.register("close".to_owned(), Command::Close);
    g
}

} // verus!
