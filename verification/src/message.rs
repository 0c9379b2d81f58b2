use vstd::prelude::*;
use vstd::string::*;

verus! {

/// The base type of all network based strings.
pub type NetString = String;

/// Wraps `String::push`, which appends the character `c` to the end of `s`.
#[verifier::external_body]
fn push_char(s: &mut String, c: char)
    ensures
        final(s)@ == old(s)@.push(c),
{
    s.push(c)
}

/// The character of the decimal digit `d` (`d < 10`).
pub open spec fn digit_char(d: nat) -> char {
    (48 + d) as char
}

/// The decimal digits of `n`, most significant first, without leading zeros
/// (zero is written `0`).
pub open spec fn decimal_digits(n: nat) -> Seq<char>
    decreases n,
{
    if n < 10 {
        seq![digit_char(n)]
    } else {
        decimal_digits(n / 10).push(digit_char(n % 10))
    }
}

/// The decimal text of the integer `i`: its digits, after a `-` when negative.
pub open spec fn decimal_text(i: int) -> Seq<char> {
    if i < 0 {
        seq!['-'] + decimal_digits((-i) as nat)
    } else {
        decimal_digits(i as nat)
    }
}

/// The character of the decimal digit `d`.
fn digit(d: u64) -> (c: char)
    requires
        d < 10,
    ensures
        c == digit_char(d as nat),
{
    let b: u8 = 48u8 + (d as u8);
    b as char
}

/// Appends the decimal digits of `n` to `out`.
fn push_decimal(n: u64, out: &mut String)
    ensures
        final(out)@ == old(out)@ + decimal_digits(n as nat),
    decreases n,
{
    if n >= 10 {
        push_decimal(n / 10, out);
    }
    let c = digit(n % 10);
    let ghost before = out@;
    push_char(out, c);
    proof {
        if n >= 10 {
            assert(old(out)@ + decimal_digits(n as nat) =~= (old(out)@ + decimal_digits(
                (n / 10) as nat,
            )).push(c));
        } else {
            assert(old(out)@ + decimal_digits(n as nat) =~= old(out)@.push(c));
        }
    }
}

/// The decimal text of an unsigned integer.
fn unsigned_text(n: u64) -> (s: String)
    ensures
        s@ == decimal_text(n as int),
{
    let mut s = String::new();
    push_decimal(n, &mut s);
    assert(s@ =~= decimal_digits(n as nat));
    s
}

/// The decimal text of a signed integer.
fn signed_text(x: i64) -> (s: String)
    ensures
        s@ == decimal_text(x as int),
{
    let mut s = String::new();
    if x < 0 {
        push_char(&mut s, '-');
        let magnitude: u64 = ((-(x + 1)) as u64) + 1;
        push_decimal(magnitude, &mut s);
        assert(s@ =~= seq!['-'] + decimal_digits((-x) as nat));
    } else {
        push_decimal(x as u64, &mut s);
        assert(s@ =~= decimal_digits(x as nat));
    }
    s
}

/// Anything that can be sent over the network. This trait just enforces that
/// it can be converted into a string.
pub trait Networkable {
    /// The text that is sent for `self`.
    fn to_net_str(&self) -> NetString;
}

/// The text of a string slice is the slice itself.
impl<'a> Networkable for &'a str {
    fn to_net_str(&self) -> (s: NetString)
        ensures
            s@ == (**self)@,
    {
        String::from_str(*self)
    }
}

/// The text of a string is a copy of it.
impl<'a> Networkable for &'a String {
    fn to_net_str(&self) -> (s: NetString)
        ensures
            s@ == (**self)@,
    {
        (**self).clone()
    }
}

/// Integers are sent in decimal.
impl Networkable for u8 {
    fn to_net_str(&self) -> (s: NetString)
        ensures
            s@ == decimal_text(*self as int),
    {
        unsigned_text(*self as u64)
    }
}

/// Integers are sent in decimal.
impl Networkable for i8 {
    fn to_net_str(&self) -> (s: NetString)
        ensures
            s@ == decimal_text(*self as int),
    {
        signed_text(*self as i64)
    }
}

/// Integers are sent in decimal.
impl Networkable for u16 {
    fn to_net_str(&self) -> (s: NetString)
        ensures
            s@ == decimal_text(*self as int),
    {
        unsigned_text(*self as u64)
    }
}

/// Integers are sent in decimal.
impl Networkable for i16 {
    fn to_net_str(&self) -> (s: NetString)
        ensures
            s@ == decimal_text(*self as int),
    {
        signed_text(*self as i64)
    }
}

/// Integers are sent in decimal.
impl Networkable for u32 {
    fn to_net_str(&self) -> (s: NetString)
        ensures
            s@ == decimal_text(*self as int),
    {
        unsigned_text(*self as u64)
    }
}

/// Integers are sent in decimal.
impl Networkable for i32 {
    fn to_net_str(&self) -> (s: NetString)
        ensures
            s@ == decimal_text(*self as int),
    {
        signed_text(*self as i64)
    }
}

/// Integers are sent in decimal.
impl Networkable for u64 {
    fn to_net_str(&self) -> (s: NetString)
        ensures
            s@ == decimal_text(*self as int),
    {
        unsigned_text(*self)
    }
}

/// Integers are sent in decimal.
impl Networkable for i64 {
    fn to_net_str(&self) -> (s: NetString)
        ensures
            s@ == decimal_text(*self as int),
    {
        signed_text(*self)
    }
}

/// Integers are sent in decimal.
impl Networkable for usize {
    fn to_net_str(&self) -> (s: NetString)
        ensures
            s@ == decimal_text(*self as int),
    {
        unsigned_text(*self as u64)
    }
}

/// The kind of json that a `JsonBuilder` is representing.
#[derive(Clone, Copy, Debug, PartialEq, Eq, Structural)]
pub enum JsonKind {
    /// A json object.
    Object,
    /// A json array.
    Array,
    /// Not yet known.
    Unknown,
}

/// The amount of spaces used while generating json (using `JsonBuilder`).
pub const JSON_INDENT: usize = 2;

/// Easy json builder using builder notation. This struct formats data
/// correctly using indentation.
pub struct JsonBuilder {
    data: Vec<String>,
    indent: usize,
    index: usize,
    context: JsonKind,
    tag: JsonKind,
}

/// What a `JsonBuilder` holds: its lines, the current indentation, the line
/// being written, the kind of value being written in, and the kind at the top.
pub struct JsonBuilderView {
    pub data: Seq<Seq<char>>,
    pub indent: usize,
    pub index: usize,
    pub context: JsonKind,
    pub tag: JsonKind,
}

impl View for JsonBuilder {
    type V = JsonBuilderView;

    closed spec fn view(&self) -> JsonBuilderView {
        JsonBuilderView {
            data: self.data@.map_values(|line: String| line@),
            indent: self.indent,
            index: self.index,
            context: self.context,
            tag: self.tag,
        }
    }
}

/// The state of a builder started on a value of kind `kind` whose opening and
/// closing lines are `open` and `close`: those two lines around an empty one,
/// indentation 2, writing on the empty line, inside a value of that kind.
pub open spec fn started_view(kind: JsonKind, open: Seq<char>, close: Seq<char>) -> JsonBuilderView {
    JsonBuilderView {
        data: seq![open, Seq::<char>::empty(), close],
        indent: 2,
        index: 1,
        context: kind,
        tag: kind,
    }
}

impl Default for JsonBuilder {
    /// A builder without any initial state: no lines, no indentation, and
    /// neither the tag nor the context known.
    fn default() -> (builder: Self)
        ensures
            builder@ == (JsonBuilderView {
                data: Seq::empty(),
                indent: 0,
                index: 0,
                context: JsonKind::Unknown,
                tag: JsonKind::Unknown,
            }),
    {
        let builder = JsonBuilder {
            data: Vec::new(),
            indent: 0,
            tag: JsonKind::Unknown,
            index: 0,
            context: JsonKind::Unknown,
        };
        assert(builder@.data =~= Seq::<Seq<char>>::empty());
        builder
    }
}

impl JsonBuilder {
    /// A builder started on `kind`, between the lines `open` and `close`.
    fn started(kind: JsonKind, open: &str, close: &str) -> (builder: Self)
        ensures
            builder@ == started_view(kind, open@, close@),
            builder@.context == kind,
            builder@.tag == kind,
    {
        let mut this = Self::default();
        this.tag = kind;
        this.indent = 2;
        let mut data: Vec<String> = Vec::new();
        data.push(String::from_str(open));
        data.push(String::new());
        data.push(String::from_str(close));
        this.data = data;
        this.context = kind;
        this.index = 1;
        assert(this@.data =~= seq![open@, Seq::<char>::empty(), close@]);
        this
    }

    /// Build a json object. This initializes `JsonBuilder` with the initial
    /// braces required for an object, with the tag `JsonKind::Object`, and
    /// expects further calls to be related to an object.
    pub fn object() -> (builder: Self)
        ensures
            builder@ == started_view(JsonKind::Object, "{"@, "}"@),
            builder@.context == JsonKind::Object,
            builder@.tag == JsonKind::Object,
    {
        Self::started(JsonKind::Object, "{", "}")
    }

    /// Build a json array. This initializes `JsonBuilder` with the initial
    /// brackets required for an array, with the tag `JsonKind::Array`, and
    /// expects further calls to be related to an array.
    pub fn array() -> (builder: Self)
        ensures
            builder@ == started_view(JsonKind::Array, "["@, "]"@),
            builder@.context == JsonKind::Array,
            builder@.tag == JsonKind::Array,
    {
        Self::started(JsonKind::Array, "[", "]")
    }

    /// The tag: what the base of the value is.
    pub fn tag(&self) -> (tag: JsonKind)
        ensures
            tag == self@.tag,
    {
        self.tag
    }

    /// The kind of value the builder is writing in.
    pub fn context(&self) -> (context: JsonKind)
        ensures
            context == self@.context,
    {
        self.context
    }

    /// Set the tag. The tag represents what the base of the value is; for
    /// example, if the items reside inside of braces at the very top level,
    /// the tag is `JsonKind::Object`. Everything else is left as it is.
    pub fn with_tag(self, tag: JsonKind) -> (builder: Self)
        ensures
            builder@ == (JsonBuilderView { tag, ..self@ }),
    {
        let mut this = self;
        this.tag = tag;
        this
    }

    /// Add an entry to an object. The builder must be inside an object;
    /// the entry is not recorded, and the builder is returned as it was.
    pub fn with_entry<V: Networkable>(self, key: String, value: V) -> (builder: Self)
        requires
            self@.context == JsonKind::Object,
        ensures
            builder@ == self@,
    {
        self
    }
}

/// A builder started on a kind is inside a value of that kind, and tagged
/// with it: an array builder is not inside an object, so it refuses entries,
/// while an object builder accepts them.
pub proof fn lemma_started_in_its_kind(kind: JsonKind, open: Seq<char>, close: Seq<char>)
    ensures
        started_view(kind, open, close).context == kind,
        started_view(kind, open, close).tag == kind,
        started_view(JsonKind::Array, open, close).context != JsonKind::Object,
        started_view(JsonKind::Object, open, close).context == JsonKind::Object,
        started_view(kind, open, close).data.len() == 3,
        started_view(kind, open, close).data[0] == open,
        started_view(kind, open, close).data[2] == close,
{
}

/// Whether `c` is a decimal digit character.
pub open spec fn is_digit_char(c: char) -> bool {
    '0' <= c && c <= '9'
}

/// The number that a sequence of decimal digit characters denotes, most
/// significant digit first.
pub open spec fn digits_value(s: Seq<char>) -> int
    decreases s.len(),
{
    if s.len() == 0 {
        0
    } else {
        digits_value(s.drop_last()) * 10 + (s.last() as int - 48)
    }
}

/// The decimal text of a natural number is its base-10 representation: it is
/// a non-empty sequence of digit characters, it denotes exactly `n`, and it
/// has no leading zero (only `0` itself starts with `0`).
pub proof fn lemma_decimal_digits_value(n: nat)
    ensures
        decimal_digits(n).len() >= 1,
        forall|k: int| 0 <= k < decimal_digits(n).len() ==> is_digit_char(#[trigger] decimal_digits(n)[k]),
        digits_value(decimal_digits(n)) == n,
        decimal_digits(n)[0] == '0' ==> n == 0,
        n == 0 ==> decimal_digits(n) == seq!['0'],
    decreases n,
{
    if n < 10 {
        assert(decimal_digits(n) == seq![digit_char(n)]);
        assert(seq![digit_char(n)].drop_last() =~= Seq::<char>::empty());
        assert(digit_char(n) as int == 48 + n);
        assert(digits_value(Seq::<char>::empty()) == 0);
        assert(digits_value(seq![digit_char(n)]) == n);
    } else {
        lemma_decimal_digits_value(n / 10);
        let prefix = decimal_digits(n / 10);
        let d = digit_char(n % 10);
        assert(decimal_digits(n) == prefix.push(d));
        assert(prefix.push(d).drop_last() =~= prefix);
        assert(d as int == 48 + n % 10);
        assert(digits_value(decimal_digits(n)) == (n / 10) * 10 + n % 10);
        assert((n / 10) * 10 + n % 10 == n);
        assert(prefix.push(d)[0] == prefix[0]);
    }
}

/// The decimal text of an integer: a non-negative integer is written as its
/// digits; a negative one as `-` followed by the digits of its magnitude.
pub proof fn lemma_decimal_text_value(i: int)
    ensures
        i >= 0 ==> digits_value(decimal_text(i)) == i,
        i >= 0 ==> decimal_text(i) == decimal_digits(i as nat),
        i < 0 ==> decimal_text(i)[0] == '-',
        i < 0 ==> decimal_text(i).drop_first() == decimal_digits((-i) as nat),
        i < 0 ==> digits_value(decimal_text(i).drop_first()) == -i,
{
    if i >= 0 {
        lemma_decimal_digits_value(i as nat);
    } else {
        lemma_decimal_digits_value((-i) as nat);
        assert((seq!['-'] + decimal_digits((-i) as nat)).drop_first() =~= decimal_digits((-i) as nat));
    }
}

} // verus!
