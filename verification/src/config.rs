//! Mutable key/value settings store.
//!
//! One default instance tunes the whole server (protocol enable flags,
//! thread pool size, log destination); further independent instances scope
//! options to a single session.  Writes are immediately visible to
//! subsequent reads; a missing key reads as the empty string.

use vstd::prelude::*;

verus! {

/// Decimal digit `d` as a character.
pub open spec fn digit_char(d: nat) -> char {
    if d == 0 {
        '0'
    } else if d == 1 {
        '1'
    } else if d == 2 {
        '2'
    } else if d == 3 {
        '3'
    } else if d == 4 {
        '4'
    } else if d == 5 {
        '5'
    } else if d == 6 {
        '6'
    } else if d == 7 {
        '7'
    } else if d == 8 {
        '8'
    } else {
        '9'
    }
}

/// Decimal representation of `n`, most significant digit first.
pub open spec fn dec_rep(n: nat) -> Seq<char>
    decreases n,
{
    if n < 10 {
        seq![digit_char(n)]
    } else {
        dec_rep(n / 10).push(digit_char(n % 10))
    }
}

/// Decimal representation of a signed integer, with a leading `-` sign
/// for negative values.
pub open spec fn int_string(i: int) -> Seq<char> {
    if i < 0 {
        seq!['-'] + dec_rep((-i) as nat)
    } else {
        dec_rep(i as nat)
    }
}

fn digit_str(d: u32) -> (r: &'static str)
    requires
        d < 10,
    ensures
        r@ =~= seq![digit_char(d as nat)],
{
    proof {
        reveal_strlit("0");
        reveal_strlit("1");
        reveal_strlit("2");
        reveal_strlit("3");
        reveal_strlit("4");
        reveal_strlit("5");
        reveal_strlit("6");
        reveal_strlit("7");
        reveal_strlit("8");
        reveal_strlit("9");
    }
    if d == 0 {
        "0"
    } else if d == 1 {
        "1"
    } else if d == 2 {
        "2"
    } else if d == 3 {
        "3"
    } else if d == 4 {
        "4"
    } else if d == 5 {
        "5"
    } else if d == 6 {
        "6"
    } else if d == 7 {
        "7"
    } else if d == 8 {
        "8"
    } else {
        "9"
    }
}

fn u32_dec(n: u32) -> (r: String)
    ensures
        r@ == dec_rep(n as nat),
    decreases n,
{
    if n < 10 {
        let r = String::from_str(digit_str(n));
        proof {
            assert(r@ =~= dec_rep(n as nat));
        }
        r
    } else {
        let mut r = u32_dec(n / 10);
        r.append(digit_str(n % 10));
        proof {
            assert(r@ =~= dec_rep(n as nat));
        }
        r
    }
}

/// Decimal rendering of `i`, the exact text a configuration value holds.
pub fn int_to_string(i: i32) -> (r: String)
    ensures
        r@ == int_string(i as int),
{
    if i >= 0 {
        u32_dec(i as u32)
    } else {
        let mag: u32 = (-(i as i64)) as u32;
        proof {
            reveal_strlit("-");
        }
        let mut r = String::from_str("-");
        r.append(u32_dec(mag).as_str());
        proof {
            assert(r@ =~= int_string(i as int));
        }
        r
    }
}

/// Textual snapshot of a list of bindings: one `key=value` line per entry,
/// each closed by a newline, in storage order.
pub open spec fn dump_rep(s: Seq<(Seq<char>, Seq<char>)>) -> Seq<char>
    decreases s.len(),
{
    if s.len() == 0 {
        Seq::<char>::empty()
    } else {
        dump_rep(s.drop_last()) + s.last().0 + "="@ + s.last().1 + "\n"@
    }
}

/// A key/value settings store.
///
/// Its view is the map from key text to value text.
pub struct EnvIni {
    entries: Vec<(String, String)>,
}

impl EnvIni {
    /// No two entries share a key, so each key denotes one value.
    pub closed spec fn wf(&self) -> bool {
        forall|i: int, j: int|
            0 <= i < j < self.entries@.len() ==> self.entries@[i].0@ != self.entries@[j].0@
    }

    pub closed spec fn view(&self) -> Map<Seq<char>, Seq<char>> {
        Map::new(
            |k: Seq<char>|
                exists|i: int| 0 <= i < self.entries@.len() && self.entries@[i].0@ == k,
            |k: Seq<char>|
                self.entries@[choose|i: int|
                    0 <= i < self.entries@.len() && self.entries@[i].0@ == k].1@,
        )
    }

    /// With unique keys, entry `i` is exactly what the view binds its key to.
    proof fn lemma_entry_value(&self, i: int)
        requires
            self.wf(),
            0 <= i < self.entries@.len(),
        ensures
            self@.dom().contains(self.entries@[i].0@),
            self@[self.entries@[i].0@] == self.entries@[i].1@,
    {
        let k = self.entries@[i].0@;
        assert(0 <= i < self.entries@.len() && self.entries@[i].0@ == k);
        let j = choose|j: int| 0 <= j < self.entries@.len() && self.entries@[j].0@ == k;
        if j < i {
            assert(self.entries@[j].0@ != self.entries@[i].0@);
        } else if i < j {
            assert(self.entries@[i].0@ != self.entries@[j].0@);
        }
    }

    /// A fresh store holds nothing.
    pub fn new() -> (r: Self)
        ensures
            r.wf(),
            r@ == Map::<Seq<char>, Seq<char>>::empty(),
    {
        let r = EnvIni { entries: Vec::new() };
        proof {
            assert(r@ =~= Map::<Seq<char>, Seq<char>>::empty());
        }
        r
    }

    /// Index of the entry holding `key`, if any.
    fn find_index(&self, key: &String) -> (r: Option<usize>)
        requires
            self.wf(),
        ensures
            match r {
                Some(i) => i < self.entries@.len() && self.entries@[i as int].0@ == key@,
                None => forall|i: int|
                    0 <= i < self.entries@.len() ==> self.entries@[i].0@ != key@,
            },
    {
        let mut i: usize = 0;
        while i < self.entries.len()
            invariant
                i <= self.entries@.len(),
                forall|j: int| 0 <= j < i ==> self.entries@[j].0@ != key@,
            decreases self.entries@.len() - i,
        {
            if self.entries[i].0 == *key {
                return Some(i);
            }
            i = i + 1;
        }
        None
    }

    /// Bind `key` to `val`, replacing any earlier binding.
    pub fn set_option(&mut self, key: &str, val: &str)
        requires
            old(self).wf(),
        ensures
            final(self).wf(),
            final(self)@ == old(self)@.insert(key@, val@),
    {
        let k = key.to_owned();
        match self.find_index(&k) {
            Some(i) => {
                let v = val.to_owned();
                self.entries[i].1 = v;
                proof {
                    assert forall|a: int, b: int|
                        0 <= a < b < self.entries@.len() implies self.entries@[a].0@
                        != self.entries@[b].0@ by {
                        assert(self.entries@[a].0@ == old(self).entries@[a].0@);
                        assert(self.entries@[b].0@ == old(self).entries@[b].0@);
                    }
                    let m = old(self)@.insert(key@, val@);
                    assert forall|k2: Seq<char>| self@.dom().contains(k2) implies m.dom().contains(
                        k2,
                    ) && self@[k2] == m[k2] by {
                        let j = choose|j: int|
                            0 <= j < self.entries@.len() && self.entries@[j].0@ == k2;
                        self.lemma_entry_value(j);
                        if k2 == key@ {
                            if j < i {
                                assert(self.entries@[j].0@ != self.entries@[i as int].0@);
                            } else if (i as int) < j {
                                assert(self.entries@[i as int].0@ != self.entries@[j].0@);
                            }
                        } else {
                            assert(old(self).entries@[j].0@ == k2);
                            old(self).lemma_entry_value(j);
                            assert(self.entries@[j].1@ == old(self).entries@[j].1@);
                        }
                    }
                    assert forall|k2: Seq<char>| m.dom().contains(k2) implies self@.dom().contains(
                        k2,
                    ) by {
                        if k2 == key@ {
                            assert(self.entries@[i as int].0@ == k2);
                        } else {
                            let j = choose|j: int|
                                0 <= j < old(self).entries@.len() && old(self).entries@[j].0@ == k2;
                            assert(self.entries@[j].0@ == k2);
                        }
                    }
                    assert(self@ =~= m);
                }
            },
            None => {
                self.entries.push((k, val.to_owned()));
                proof {
                    let last = self.entries@.len() - 1;
                    assert(self.entries@[last].0@ == key@);
                    assert forall|a: int, b: int|
                        0 <= a < b < self.entries@.len() implies self.entries@[a].0@
                        != self.entries@[b].0@ by {
                        if b < last {
                            assert(old(self).entries@[a].0@ != old(self).entries@[b].0@);
                        } else {
                            assert(old(self).entries@[a].0@ != key@);
                        }
                    }
                    let m = old(self)@.insert(key@, val@);
                    assert forall|k2: Seq<char>| self@.dom().contains(k2) implies m.dom().contains(
                        k2,
                    ) && self@[k2] == m[k2] by {
                        let j = choose|j: int|
                            0 <= j < self.entries@.len() && self.entries@[j].0@ == k2;
                        self.lemma_entry_value(j);
                        if j == last {
                            assert(k2 == key@);
                        } else {
                            assert(old(self).entries@[j].0@ == k2);
                            old(self).lemma_entry_value(j);
                            assert(k2 != key@);
                        }
                    }
                    assert forall|k2: Seq<char>| m.dom().contains(k2) implies self@.dom().contains(
                        k2,
                    ) by {
                        if k2 == key@ {
                            assert(self.entries@[last].0@ == k2);
                        } else {
                            let j = choose|j: int|
                                0 <= j < old(self).entries@.len() && old(self).entries@[j].0@ == k2;
                            assert(self.entries@[j].0@ == k2);
                        }
                    }
                    assert(self@ =~= m);
                }
            },
        }
    }

    /// Bind `key` to the decimal text of `val`.
    pub fn set_option_int(&mut self, key: &str, val: i32)
        requires
            old(self).wf(),
        ensures
            final(self).wf(),
            final(self)@ == old(self)@.insert(key@, int_string(val as int)),
    {
        let v = int_to_string(val);
        self.set_option(key, v.as_str());
    }

    /// Value bound to `key`; the empty string when the key is absent.
    pub fn get_option(&self, key: &str) -> (r: String)
        requires
            self.wf(),
        ensures
            self@.dom().contains(key@) ==> r@ == self@[key@],
            !self@.dom().contains(key@) ==> r@ == Seq::<char>::empty(),
    {
        let k = key.to_owned();
        match self.find_index(&k) {
            Some(i) => self.entries[i].1.clone(),
            None => String::new(),
        }
    }

    /// The stored bindings in order, as text pairs.
    pub closed spec fn entry_views(&self) -> Seq<(Seq<char>, Seq<char>)> {
        self.entries@.map_values(|p: (String, String)| (p.0@, p.1@))
    }

    /// Each stored binding is what the view binds its key to, and every
    /// bound key is stored: the dump below therefore snapshots the whole
    /// store.
    pub proof fn lemma_entry_views_agree(&self)
        requires
            self.wf(),
        ensures
            forall|i: int|
                0 <= i < self.entry_views().len() ==> self@.dom().contains(
                    #[trigger] self.entry_views()[i].0,
                ) && self@[self.entry_views()[i].0] == self.entry_views()[i].1,
            forall|k: Seq<char>|
                self@.dom().contains(k) ==> exists|i: int|
                    0 <= i < self.entry_views().len() && (#[trigger] self.entry_views()[i]).0 == k,
    {
        assert forall|i: int|
            0 <= i < self.entry_views().len() implies self@.dom().contains(
            #[trigger] self.entry_views()[i].0,
        ) && self@[self.entry_views()[i].0] == self.entry_views()[i].1 by {
            self.lemma_entry_value(i);
        }
        assert forall|k: Seq<char>| self@.dom().contains(k) implies exists|i: int|
            0 <= i < self.entry_views().len() && (#[trigger] self.entry_views()[i]).0 == k by {
            let j = choose|j: int| 0 <= j < self.entries@.len() && self.entries@[j].0@ == k;
            assert(0 <= j < self.entry_views().len() && self.entry_views()[j].0 == k);
        }
    }

    /// Full textual snapshot: one `key=value` line per binding.
    pub fn dump(&self) -> (r: String)
        ensures
            r@ == dump_rep(self.entry_views()),
    {
        let mut r = String::new();
        let mut i: usize = 0;
        while i < self.entries.len()
            invariant
                i <= self.entries@.len(),
                r@ == dump_rep(self.entry_views().take(i as int)),
            decreases self.entries@.len() - i,
        {
            r.append(self.entries[i].0.as_str());
            r.append("=");
            r.append(self.entries[i].1.as_str());
            r.append("\n");
            i = i + 1;
            proof {
                assert(self.entry_views().take(i as int).drop_last() =~= self.entry_views().take(
                    i - 1,
                ));
                assert(self.entry_views().take(i as int).last() == self.entry_views()[i - 1]);
            }
        }
        proof {
            assert(self.entry_views().take(self.entries@.len() as int) =~= self.entry_views());
        }
        r
    }

    /// Drop the binding of `key`; reports whether one existed.
    pub fn remove_option(&mut self, key: &str) -> (r: bool)
        requires
            old(self).wf(),
        ensures
            final(self).wf(),
            r == old(self)@.dom().contains(key@),
            final(self)@ == old(self)@.remove(key@),
    {
        let k = key.to_owned();
        match self.find_index(&k) {
            Some(i) => {
                proof {
                    old(self).lemma_entry_value(i as int);
                }
                self.entries.remove(i);
                proof {
                    assert forall|a: int, b: int|
                        0 <= a < b < self.entries@.len() implies self.entries@[a].0@
                        != self.entries@[b].0@ by {
                        let oa: int = if a < i { a } else { a + 1 };
                        let ob: int = if b < i { b } else { b + 1 };
                        assert(self.entries@[a] == old(self).entries@[oa]);
                        assert(self.entries@[b] == old(self).entries@[ob]);
                        assert(old(self).entries@[oa].0@ != old(self).entries@[ob].0@);
                    }
                    let m = old(self)@.remove(key@);
                    assert forall|k2: Seq<char>| self@.dom().contains(k2) implies m.dom().contains(
                        k2,
                    ) && self@[k2] == m[k2] by {
                        let j = choose|j: int|
                            0 <= j < self.entries@.len() && self.entries@[j].0@ == k2;
                        self.lemma_entry_value(j);
                        let oj: int = if j < i { j } else { j + 1 };
                        assert(self.entries@[j] == old(self).entries@[oj]);
                        assert(old(self).entries@[oj].0@ == k2);
                        old(self).lemma_entry_value(oj);
                        if k2 == key@ {
                            if oj < i {
                                assert(old(self).entries@[oj].0@ != old(
                                    self,
                                ).entries@[i as int].0@);
                            } else {
                                assert(old(self).entries@[i as int].0@ != old(
                                    self,
                                ).entries@[oj].0@);
                            }
                        }
                    }
                    assert forall|k2: Seq<char>| m.dom().contains(k2) implies self@.dom().contains(
                        k2,
                    ) by {
                        let oj = choose|j: int|
                            0 <= j < old(self).entries@.len() && old(self).entries@[j].0@ == k2;
                        if oj < i {
                            assert(self.entries@[oj].0@ == k2);
                        } else {
                            assert(old(self).entries@[i as int].0@ == key@);
                            assert(oj != i);
                            assert(self.entries@[oj - 1].0@ == k2);
                        }
                    }
                    assert(self@ =~= m);
                }
                true
            },
            None => {
                proof {
                    let m = old(self)@.remove(key@);
                    assert forall|k2: Seq<char>| m.dom().contains(k2) implies self@.dom().contains(
                        k2,
                    ) by {
                    }
                    assert(self@ =~= m);
                }
                false
            },
        }
    }
}

} // verus!

