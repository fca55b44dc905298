use vstd::prelude::*;

verus! {

/// One HTML attribute to set on a rendered element.
pub struct Attribute {
    pub name: &'static str,
    pub value: String,
}

impl View for Attribute {
    type V = (Seq<char>, Seq<char>);

    open spec fn view(&self) -> (Seq<char>, Seq<char>) {
        (self.name@, self.value@)
    }
}

/// The attributes of one element, in the order in which they are written.
/// An attribute that is switched off does not appear at all.
pub struct AttributeList {
    pub items: Vec<Attribute>,
}

impl View for AttributeList {
    type V = Seq<(Seq<char>, Seq<char>)>;

    open spec fn view(&self) -> Seq<(Seq<char>, Seq<char>)> {
        self.items@.map_values(|a: Attribute| a@)
    }
}

/// An attribute that always carries the given text, possibly empty.
pub open spec fn text(name: &str, value: Seq<char>) -> Seq<(Seq<char>, Seq<char>)> {
    seq![(name@, value)]
}

/// A presence-only attribute: written with an empty value when `on`, left out otherwise.
pub open spec fn marker(name: &str, on: bool) -> Seq<(Seq<char>, Seq<char>)> {
    if on {
        seq![(name@, Seq::<char>::empty())]
    } else {
        Seq::empty()
    }
}

/// A standard HTML boolean attribute (`disabled`, `open`, `required`,
/// `selected`): written with its own name as value when `on`, left out otherwise.
pub open spec fn toggle(name: &str, on: bool) -> Seq<(Seq<char>, Seq<char>)> {
    if on {
        seq![(name@, name@)]
    } else {
        Seq::empty()
    }
}

/// An attribute written only when a value is given.
pub open spec fn optional(name: &str, value: Option<Seq<char>>) -> Seq<(Seq<char>, Seq<char>)> {
    match value {
        Some(v) => seq![(name@, v)],
        None => Seq::empty(),
    }
}

/// The view of an optional string.
pub open spec fn opt_view(v: Option<String>) -> Option<Seq<char>> {
    match v {
        Some(s) => Some(s@),
        None => None,
    }
}

/// The `id` and `style` attributes that most widgets accept.
pub open spec fn identity(id: Option<String>, style: Option<String>) -> Seq<(Seq<char>, Seq<char>)> {
    optional("id", opt_view(id)) + optional("style", opt_view(style))
}

/// The character of a decimal digit.
pub open spec fn digit_char(d: nat) -> char {
    if d == 0 { '0' }
    else if d == 1 { '1' }
    else if d == 2 { '2' }
    else if d == 3 { '3' }
    else if d == 4 { '4' }
    else if d == 5 { '5' }
    else if d == 6 { '6' }
    else if d == 7 { '7' }
    else if d == 8 { '8' }
    else { '9' }
}

/// The decimal digits of `n`, most significant first, without leading zeros.
pub open spec fn digits(n: nat) -> Seq<char>
    decreases n,
{
    if n < 10 {
        seq![digit_char(n)]
    } else {
        digits(n / 10).push(digit_char(n % 10))
    }
}

/// The decimal text of an integer, with a leading `-` when it is negative.
pub open spec fn decimal(n: int) -> Seq<char> {
    if n < 0 {
        seq!['-'] + digits((-n) as nat)
    } else {
        digits(n as nat)
    }
}

fn digit_str(d: u64) -> (r: &'static str)
    requires
        d < 10,
    ensures
        r@ == seq![digit_char(d as nat)],
{
    proof {
        reveal_strlit("0");
        reveal_strlit("1");
        reveal_strlit("2");
        reveal_strlit("3");
        reveal_strlit("4");
        reveal_strlit("5");
        reveal_strlit("6");
        reveal_strlit("7");
        reveal_strlit("8");
        reveal_strlit("9");
    }
    let r = match d {
        0 => "0",
        1 => "1",
        2 => "2",
        3 => "3",
        4 => "4",
        5 => "5",
        6 => "6",
        7 => "7",
        8 => "8",
        _ => "9",
    };
    assert(r@ =~= seq![digit_char(d as nat)]);
    r
}

fn push_digits(out: &mut String, n: u64)
    ensures
        final(out)@ == old(out)@ + digits(n as nat),
    decreases n,
{
    if n >= 10 {
        push_digits(out, n / 10);
    }
    out.append(digit_str(n % 10));
    assert(final(out)@ =~= old(out)@ + digits(n as nat));
}

/// Writes a signed integer in decimal.
pub fn decimal_of_i64(n: i64) -> (r: String)
    ensures
        r@ == decimal(n as int),
{
    let mut out = String::new();
    if n < 0 {
        proof {
            reveal_strlit("-");
        }
        out.append("-");
        let m: u64 = if n == i64::MIN {
            9223372036854775808u64
        } else {
            (-n) as u64
        };
        push_digits(&mut out, m);
        assert(out@ =~= decimal(n as int));
    } else {
        push_digits(&mut out, n as u64);
        assert(out@ =~= decimal(n as int));
    }
    out
}

/// Writes an unsigned integer in decimal.
pub fn decimal_of_u64(n: u64) -> (r: String)
    ensures
        r@ == decimal(n as int),
{
    let mut out = String::new();
    push_digits(&mut out, n);
    assert(out@ =~= decimal(n as int));
    out
}

impl AttributeList {
    pub fn new() -> (r: AttributeList)
        ensures
            r@ == Seq::<(Seq<char>, Seq<char>)>::empty(),
    {
        let r = AttributeList { items: Vec::new() };
        assert(r@ =~= Seq::<(Seq<char>, Seq<char>)>::empty());
        r
    }

    fn push(&mut self, name: &'static str, value: String)
        ensures
            final(self)@ == old(self)@.push((name@, value@)),
    {
        self.items.push(Attribute { name, value });
        assert(final(self)@ =~= old(self)@.push((name@, value@)));
    }

    /// Adds an attribute that always carries `value`.
    pub fn push_text(&mut self, name: &'static str, value: &String)
        ensures
            final(self)@ == old(self)@ + text(name, value@),
    {
        self.push(name, value.clone());
        assert(final(self)@ =~= old(self)@ + text(name, value@));
    }

    /// Adds a presence-only attribute when `on`.
    pub fn push_marker(&mut self, name: &'static str, on: bool)
        ensures
            final(self)@ == old(self)@ + marker(name, on),
    {
        if on {
            self.push(name, String::new());
        }
        assert(final(self)@ =~= old(self)@ + marker(name, on));
    }

    /// Adds a standard boolean attribute when `on`.
    pub fn push_toggle(&mut self, name: &'static str, on: bool)
        ensures
            final(self)@ == old(self)@ + toggle(name, on),
    {
        if on {
            self.push(name, String::from_str(name));
        }
        assert(final(self)@ =~= old(self)@ + toggle(name, on));
    }

    /// Adds an attribute when a value is given.
    pub fn push_optional(&mut self, name: &'static str, value: &Option<String>)
        ensures
            final(self)@ == old(self)@ + optional(name, opt_view(*value)),
    {
        match value {
            Some(v) => self.push(name, v.clone()),
            None => {},
        }
        assert(final(self)@ =~= old(self)@ + optional(name, opt_view(*value)));
    }

    /// Adds the `id` and `style` attributes, each when given.
    pub fn push_identity(&mut self, id: &Option<String>, style: &Option<String>)
        ensures
            final(self)@ == old(self)@ + identity(*id, *style),
    {
        self.push_optional("id", id);
        self.push_optional("style", style);
        assert(final(self)@ =~= old(self)@ + identity(*id, *style));
    }

    /// Adds an attribute that carries an integer in decimal.
    pub fn push_number(&mut self, name: &'static str, value: i64)
        ensures
            final(self)@ == old(self)@ + text(name, decimal(value as int)),
    {
        let s = decimal_of_i64(value);
        self.push(name, s);
        assert(final(self)@ =~= old(self)@ + text(name, decimal(value as int)));
    }

    /// The attributes of an element that takes only `id` and `style`.
    pub fn identity_only(id: &Option<String>, style: &Option<String>) -> (r: AttributeList)
        ensures
            r@ == identity(*id, *style),
    {
        let mut a = AttributeList::new();
        a.push_identity(id, style);
        assert(a@ =~= identity(*id, *style));
        a
    }

    pub fn len(&self) -> (r: usize)
        ensures
            r == self@.len(),
    {
        self.items.len()
    }
}

} // verus!
