use vstd::prelude::*;
use crate::attributes::{identity, opt_view, optional};

verus! {

/// Extra styling and accessibility settings that some widgets accept and apply
/// to their element once it is mounted.
pub struct CustomizableProps {
    /// The element's `id` attribute.
    pub id: Option<String>,
    /// The element's `style` attribute.
    pub style: Option<String>,
    /// Attribute names and values, each name once, in strictly ascending order
    /// of names (see `names_ascending`).
    pub aria: Vec<(String, String)>,
}

/// Whether `a` comes before `b` in the order of strings: character by
/// character by code point, a proper prefix first.
pub open spec fn name_less(a: Seq<char>, b: Seq<char>) -> bool
    decreases a.len(),
{
    if a.len() == 0 {
        b.len() > 0
    } else if b.len() == 0 {
        false
    } else if a[0] != b[0] {
        (a[0] as u32) < (b[0] as u32)
    } else {
        name_less(a.drop_first(), b.drop_first())
    }
}

/// The names of `s` are strictly ascending, hence each occurs once: `s` is a map
/// from names to values, listed in the order of its keys.
pub open spec fn names_ascending(s: Seq<(Seq<char>, Seq<char>)>) -> bool {
    forall|i: int| 0 <= i < s.len() - 1 ==> name_less(#[trigger] s[i].0, s[i + 1].0)
}

proof fn lemma_name_less_skip(a: Seq<char>, b: Seq<char>, i: int)
    requires
        0 <= i <= a.len(),
        i <= b.len(),
        a.take(i) == b.take(i),
    ensures
        name_less(a, b) == name_less(a.skip(i), b.skip(i)),
    decreases i,
{
    if i == 0 {
        assert(a.skip(0) =~= a);
        assert(b.skip(0) =~= b);
    } else {
        assert(a[0] == a.take(i)[0]);
        assert(b[0] == b.take(i)[0]);
        assert(a.drop_first().take(i - 1) =~= a.take(i).drop_first());
        assert(b.drop_first().take(i - 1) =~= b.take(i).drop_first());
        lemma_name_less_skip(a.drop_first(), b.drop_first(), i - 1);
        assert(a.drop_first().skip(i - 1) =~= a.skip(i));
        assert(b.drop_first().skip(i - 1) =~= b.skip(i));
    }
}

/// Tells whether `a` comes before `b` in the order of strings.
pub fn name_precedes(a: &String, b: &String) -> (r: bool)
    ensures
        r == name_less(a@, b@),
{
    let sa = a.as_str();
    let sb = b.as_str();
    let la = sa.unicode_len();
    let lb = sb.unicode_len();
    let mut i: usize = 0;
    while i < la && i < lb
        invariant
            i <= la,
            i <= lb,
            la == a@.len(),
            lb == b@.len(),
            sa@ == a@,
            sb@ == b@,
            a@.take(i as int) == b@.take(i as int),
        decreases la - i,
    {
        let ca = sa.get_char(i);
        let cb = sb.get_char(i);
        if ca != cb {
            proof {
                lemma_name_less_skip(a@, b@, i as int);
                assert(a@.skip(i as int)[0] == ca);
                assert(b@.skip(i as int)[0] == cb);
            }
            return (ca as u32) < (cb as u32);
        }
        assert(a@.take(i + 1) =~= a@.take(i as int).push(ca));
        assert(b@.take(i + 1) =~= b@.take(i as int).push(cb));
        i = i + 1;
    }
    proof {
        lemma_name_less_skip(a@, b@, i as int);
    }
    i == la && i < lb
}

/// The view of a list of name and value pairs.
pub open spec fn pairs_view(v: Seq<(String, String)>) -> Seq<(Seq<char>, Seq<char>)> {
    v.map_values(|p: (String, String)| (p.0@, p.1@))
}

/// Whether `name` starts with `aria-`.
pub open spec fn is_aria_name(name: Seq<char>) -> bool {
    name.len() >= 5 && name.subrange(0, 5) == seq!['a', 'r', 'i', 'a', '-']
}

/// The entries of `s` whose names start with `aria-`, in their order.
pub open spec fn aria_entries(s: Seq<(Seq<char>, Seq<char>)>) -> Seq<(Seq<char>, Seq<char>)>
    decreases s.len(),
{
    if s.len() == 0 {
        Seq::empty()
    } else if is_aria_name(s.last().0) {
        aria_entries(s.drop_last()).push(s.last())
    } else {
        aria_entries(s.drop_last())
    }
}

/// Tells whether an attribute name starts with `aria-`.
pub fn has_aria_prefix(name: &String) -> (r: bool)
    ensures
        r == is_aria_name(name@),
{
    let s = name.as_str();
    if s.unicode_len() < 5 {
        return false;
    }
    let r = s.get_char(0) == 'a' && s.get_char(1) == 'r' && s.get_char(2) == 'i' && s.get_char(3)
        == 'a' && s.get_char(4) == '-';
    assert(r == (name@.subrange(0, 5) =~= seq!['a', 'r', 'i', 'a', '-']));
    r
}

impl CustomizableProps {
    /// Whether the `aria` names are strictly ascending.
    pub fn has_ascending_names(&self) -> (r: bool)
        ensures
            r == names_ascending(pairs_view(self.aria@)),
    {
        let n = self.aria.len();
        if n < 2 {
            return true;
        }
        let mut i: usize = 0;
        while i + 1 < n
            invariant
                n == self.aria@.len(),
                n >= 2,
                i + 1 <= n,
                forall|k: int|
                    0 <= k < i ==> name_less(
                        #[trigger] pairs_view(self.aria@)[k].0,
                        pairs_view(self.aria@)[k + 1].0,
                    ),
            decreases n - i,
        {
            let ok = name_precedes(&self.aria[i].0, &self.aria[i + 1].0);
            assert(pairs_view(self.aria@)[i as int].0 == self.aria@[i as int].0@);
            assert(pairs_view(self.aria@)[i + 1].0 == self.aria@[i + 1].0@);
            if !ok {
                return false;
            }
            i = i + 1;
        }
        true
    }

    /// The attributes set on the mounted element, in order: the id and the
    /// style, each when given, then each entry whose name starts with `aria-`;
    /// other entries are ignored.
    pub fn applied_attributes(&self) -> (r: Vec<(String, String)>)
        requires
            names_ascending(pairs_view(self.aria@)),
        ensures
            pairs_view(r@) == optional("id", opt_view(self.id)) + optional(
                "style",
                opt_view(self.style),
            ) + aria_entries(pairs_view(self.aria@)),
    {
        let mut out: Vec<(String, String)> = Vec::new();
        match &self.id {
            Some(v) => {
                out.push((String::from_str("id"), v.clone()));
            },
            None => {},
        }
        match &self.style {
            Some(s) => {
                out.push((String::from_str("style"), s.clone()));
            },
            None => {},
        }
        assert(pairs_view(out@) =~= identity(self.id, self.style));
        let ghost start = pairs_view(out@);
        let mut i: usize = 0;
        while i < self.aria.len()
            invariant
                i <= self.aria@.len(),
                start == identity(self.id, self.style),
                pairs_view(out@) == start + aria_entries(pairs_view(self.aria@).take(i as int)),
            decreases self.aria@.len() - i,
        {
            let ghost before = pairs_view(out@);
            let entry = &self.aria[i];
            let keep = has_aria_prefix(&entry.0);
            if keep {
                out.push((entry.0.clone(), entry.1.clone()));
            }
            proof {
                let s = pairs_view(self.aria@);
                assert(s.take(i as int + 1).drop_last() =~= s.take(i as int));
                assert(s.take(i as int + 1).last() == s[i as int]);
                if keep {
                    assert(pairs_view(out@) =~= before.push(s[i as int]));
                } else {
                    assert(pairs_view(out@) =~= before);
                }
            }
            i = i + 1;
        }
        assert(pairs_view(self.aria@).take(self.aria@.len() as int) =~= pairs_view(self.aria@));
        out
    }
}

} // verus!
