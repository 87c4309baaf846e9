//! Dictionaries from three-byte area and epicenter codes to display names.

use std::collections::HashMap;
use vstd::prelude::*;

verus! {

broadcast use vstd::std_specs::hash::group_hash_axioms;

/// The number that stands for a three-byte code inside a dictionary.
pub open spec fn code_key(code: Seq<u8>) -> u32
    recommends
        code.len() == 3,
{
    (code[0] as u32 * 65536 + code[1] as u32 * 256 + code[2] as u32) as u32
}

proof fn lemma_code_key_injective(a: Seq<u8>, b: Seq<u8>)
    requires
        a.len() == 3,
        b.len() == 3,
        code_key(a) == code_key(b),
    ensures
        a == b,
{
    assert(a =~= b);
}

/// A read-only table of names, keyed by three-byte codes.
#[derive(Debug, Clone)]
pub struct CodeDict {
    names: HashMap<u32, String>,
}

impl View for CodeDict {
    type V = Map<Seq<u8>, Seq<char>>;

    closed spec fn view(&self) -> Map<Seq<u8>, Seq<char>> {
        Map::new(
            |c: Seq<u8>| c.len() == 3 && self.names@.contains_key(code_key(c)),
            |c: Seq<u8>| self.names@[code_key(c)]@,
        )
    }
}

impl CodeDict {
    pub fn new() -> (r: CodeDict)
        ensures
            r@ == Map::<Seq<u8>, Seq<char>>::empty(),
    {
        let r = CodeDict { names: HashMap::new() };
        assert(r@ =~= Map::<Seq<u8>, Seq<char>>::empty());
        r
    }

    /// Binds `code` to `name`, replacing what it was bound to before.
    pub fn insert(&mut self, code: [u8; 3], name: String)
        ensures
            final(self)@ == old(self)@.insert(code@, name@),
    {
        let key: u32 = code[0] as u32 * 65536 + code[1] as u32 * 256 + code[2] as u32;
        assert(key == code_key(code@));
        self.names.insert(key, name);
        proof {
            assert forall|c: Seq<u8>| c.len() == 3 && c != code@ implies code_key(c) != key by {
                if code_key(c) == key {
                    lemma_code_key_injective(c, code@);
                }
            }
            assert(self@ =~= old(self)@.insert(code@, name@));
        }
    }

    /// The name bound to `code`, if there is one; a code that is not three
    /// bytes long is bound to nothing.
    pub fn get(&self, code: &[u8]) -> (r: Option<&String>)
        ensures
            match r {
                Some(name) => self@.contains_key(code@) && name@ == self@[code@],
                None => !self@.contains_key(code@),
            },
    {
        if code.len() != 3 {
            return None;
        }
        let key: u32 = code[0] as u32 * 65536 + code[1] as u32 * 256 + code[2] as u32;
        assert(key == code_key(code@));
        self.names.get(&key)
    }
}

} // verus!
