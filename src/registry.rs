use vstd::hash_map::StringHashMap;
use vstd::prelude::*;
use vstd::string::*;

use crate::error::ShortcutError;

verus! {

/// Whether the Fn modifier token, "Fn", starts at position `i` of `s`.
pub open spec fn fn_token_at(s: Seq<char>, i: int) -> bool {
    0 <= i && i + 1 < s.len() && s[i] == 'F' && s[i + 1] == 'n'
}

/// Whether `s` holds the Fn modifier token, "Fn", anywhere.
pub open spec fn mentions_fn(s: Seq<char>) -> bool {
    exists|i: int| #[trigger] fn_token_at(s, i)
}

/// Whether `s` holds the Fn modifier token, "Fn", anywhere.
pub fn contains_fn_token(s: &str) -> (r: bool)
    ensures
        r == mentions_fn(s@),
{
    let n = s.unicode_len();
    let mut i: usize = 0;
    while i < n
        invariant
            i <= n,
            n == s@.len(),
            forall|j: int| 0 <= j < i ==> !#[trigger] fn_token_at(s@, j),
        decreases n - i,
    {
        if i + 1 < n && s.get_char(i) == 'F' && s.get_char(i + 1) == 'n' {
            assert(fn_token_at(s@, i as int));
            return true;
        }
        i = i + 1;
    }
    assert forall|j: int| !#[trigger] fn_token_at(s@, j) by {
        if 0 <= j < i {
        }
    }
    false
}

/// Mapping from accelerator string to the command identifier registered for it.
pub struct ShortcutRegistry {
    shortcuts: StringHashMap<String>,
}

impl View for ShortcutRegistry {
    type V = Map<Seq<char>, Seq<char>>;

    closed spec fn view(&self) -> Map<Seq<char>, Seq<char>> {
        self.shortcuts@.map_values(|v: String| v@)
    }
}

impl ShortcutRegistry {
    /// An empty registry.
    pub fn new() -> (r: Self)
        ensures
            r@ == Map::<Seq<char>, Seq<char>>::empty(),
    {
        let r = ShortcutRegistry { shortcuts: StringHashMap::new() };
        assert(r@ =~= Map::<Seq<char>, Seq<char>>::empty());
        r
    }

    /// Maps `accelerator` to `command_id`, replacing an earlier mapping; an
    /// accelerator without the Fn token is refused and nothing changes.
    pub fn register(&mut self, accelerator: &str, command_id: &str) -> (r: Result<(), ShortcutError>)
        ensures
            mentions_fn(accelerator@) ==> r == Ok::<(), ShortcutError>(()) && final(self)@ == old(
                self,
            )@.insert(accelerator@, command_id@),
            !mentions_fn(accelerator@) ==> r == Err::<(), ShortcutError>(
                ShortcutError::InvalidShortcut,
            ) && final(self)@ == old(self)@,
    {
        if !contains_fn_token(accelerator) {
            return Err(ShortcutError::InvalidShortcut);
        }
        let value = String::from_str(command_id);
        self.shortcuts.insert(String::from_str(accelerator), value);
        assert(self@ =~= old(self)@.insert(accelerator@, command_id@));
        Ok(())
    }

    /// Removes the mapping of `accelerator`; removing an absent one changes nothing.
    pub fn unregister(&mut self, accelerator: &str)
        ensures
            final(self)@ == old(self)@.remove(accelerator@),
    {
        self.shortcuts.remove(accelerator);
        assert(self@ =~= old(self)@.remove(accelerator@));
    }

    /// Whether `accelerator` is mapped.
    pub fn contains(&self, accelerator: &str) -> (r: bool)
        ensures
            r == self@.contains_key(accelerator@),
    {
        self.shortcuts.contains_key(accelerator)
    }

    /// The command identifier mapped to `accelerator`, if any.
    pub fn lookup(&self, accelerator: &str) -> (r: Option<String>)
        ensures
            match r {
                Some(v) => self@.contains_key(accelerator@) && v@ == self@[accelerator@],
                None => !self@.contains_key(accelerator@),
            },
    {
        match self.shortcuts.get(accelerator) {
            Some(v) => Some(v.clone()),
            None => None,
        }
    }

    /// Number of registered accelerators.
    pub fn len(&self) -> (r: usize)
        ensures
            r == self@.len(),
    {
        proof {
            assert(self@.dom() =~= self.shortcuts@.dom());
        }
        self.shortcuts.len()
    }
}

} // verus!
