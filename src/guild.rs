use vstd::prelude::*;
use vstd::string::*;

verus! {

/// The view of an optional text.
pub open spec fn opt_text(o: Option<String>) -> Option<Seq<char>> {
    match o {
        Some(s) => Some(s@),
        None => None,
    }
}

/// A guild as the mirror sees it.
pub struct GuildView {
    pub uuid: Option<u128>,
    pub name: Seq<char>,
    pub prefix: Seq<char>,
    pub color: Option<Seq<char>>,
}

/// A guild: an optional stable identifier, a display name, the short prefix
/// that identifies it everywhere else, and an optional display color written
/// as `#RRGGBB`.
#[derive(Clone, Debug)]
pub struct Guild {
    pub uuid: Option<u128>,
    pub name: String,
    pub prefix: String,
    pub color: Option<String>,
}

impl View for Guild {
    type V = GuildView;

    open spec fn view(&self) -> GuildView {
        GuildView {
            uuid: self.uuid,
            name: self.name@,
            prefix: self.prefix@,
            color: opt_text(self.color),
        }
    }
}

/// The value of a hexadecimal digit, if `c` is one (either case).
pub open spec fn hex_digit(c: char) -> Option<int> {
    if '0' <= c && c <= '9' {
        Some(c as int - '0' as int)
    } else if 'a' <= c && c <= 'f' {
        Some(c as int - 'a' as int + 10)
    } else if 'A' <= c && c <= 'F' {
        Some(c as int - 'A' as int + 10)
    } else {
        None
    }
}

pub open spec fn all_hex(s: Seq<char>) -> bool {
    forall|i: int| 0 <= i < s.len() ==> hex_digit(#[trigger] s[i]).is_some()
}

/// The number that a sequence of hexadecimal digits writes, most significant first.
pub open spec fn hex_number(s: Seq<char>) -> int
    decreases s.len(),
{
    if s.len() == 0 {
        0
    } else {
        hex_number(s.drop_last()) * 16 + hex_digit(s.last()).unwrap_or(0)
    }
}

/// Unsigned base-16 reading of a text: an optional leading `+`, then at least
/// one hexadecimal digit, and a value that fits in 32 bits.
pub open spec fn parse_hex_u32(s: Seq<char>) -> Option<u32> {
    let d = if s.len() > 0 && s[0] == '+' {
        s.drop_first()
    } else {
        s
    };
    if d.len() > 0 && all_hex(d) && hex_number(d) <= u32::MAX {
        Some(hex_number(d) as u32)
    } else {
        None
    }
}

/// The packed color value of a color text: the text after its first character
/// read in base 16, or 0 where that fails.
pub open spec fn color_value(c: Seq<char>) -> u32 {
    if c.len() == 0 {
        0
    } else {
        match parse_hex_u32(c.drop_first()) {
            Some(v) => v,
            None => 0,
        }
    }
}

/// Red, green and blue of a packed `0xRRGGBB` value; higher bits are ignored.
pub open spec fn rgb_of(v: u32) -> (u8, u8, u8) {
    (((v / 65536) % 256) as u8, ((v / 256) % 256) as u8, (v % 256) as u8)
}

/// Names what `crc32fast::hash` returns on the UTF-8 bytes of a text.
pub uninterp spec fn crc32_of_text(s: Seq<char>) -> u32;

/// Relies on `crc32fast::hash`: the CRC-32 checksum of the bytes, which depends on them alone.
#[verifier::external_body]
fn crc32_text(s: &str) -> (r: u32)
    ensures
        r == crc32_of_text(s@),
{
    crc32fast::hash(s.as_bytes())
}

/// Two uppercase hexadecimal digits of a byte.
pub open spec fn hex_upper_digit(d: int) -> char {
    if d < 10 {
        (d + '0' as int) as char
    } else {
        (d - 10 + 'A' as int) as char
    }
}

pub open spec fn hex_byte_text(b: u8) -> Seq<char> {
    seq![hex_upper_digit(b as int / 16), hex_upper_digit(b as int % 16)]
}

/// Relies on `format!` with `{:02X}`: a byte as two uppercase hexadecimal digits.
#[verifier::external_body]
fn hex_byte(b: u8) -> (r: String)
    ensures
        r@ == hex_byte_text(b),
{
    format!("{:02X}", b)
}

proof fn lemma_hex_number_grows(s: Seq<char>, i: int, j: int)
    requires
        0 <= i <= j <= s.len(),
    ensures
        hex_number(s.take(i)) <= hex_number(s.take(j)),
        hex_number(s.take(i)) >= 0,
    decreases j - i,
{
    if i == j {
        lemma_hex_number_nonneg(s.take(i));
    } else {
        lemma_hex_number_grows(s, i, j - 1);
        assert(s.take(j).drop_last() =~= s.take(j - 1));
        lemma_hex_number_nonneg(s.take(j - 1));
    }
}

proof fn lemma_hex_number_nonneg(s: Seq<char>)
    ensures
        hex_number(s) >= 0,
    decreases s.len(),
{
    if s.len() > 0 {
        lemma_hex_number_nonneg(s.drop_last());
    }
}

/// Reads `s[from..]` as an unsigned base-16 number of 32 bits.
fn parse_hex_from(s: &str, from: usize) -> (r: Option<u32>)
    requires
        from <= s@.len(),
    ensures
        r == parse_hex_u32(s@.subrange(from as int, s@.len() as int)),
{
    let ghost t = s@.subrange(from as int, s@.len() as int);
    let n = s.unicode_len();
    let mut start = from;
    if from < n && s.get_char(from) == '+' {
        start = from + 1;
    }
    let ghost d = s@.subrange(start as int, n as int);
    assert(d =~= (if t.len() > 0 && t[0] == '+' { t.drop_first() } else { t }));
    if start == n {
        return None;
    }
    let mut acc: u64 = 0;
    let mut i: usize = start;
    while i < n
        invariant
            start <= i <= n,
            n == s@.len(),
            d == s@.subrange(start as int, n as int),
            t == s@.subrange(from as int, n as int),
            d == (if t.len() > 0 && t[0] == '+' { t.drop_first() } else { t }),
            acc as int == hex_number(d.take(i - start)),
            acc <= u32::MAX,
            all_hex(d.take(i - start)),
        decreases n - i,
    {
        let c = s.get_char(i);
        let v: u64 = if '0' <= c && c <= '9' {
            (c as u64) - ('0' as u64)
        } else if 'a' <= c && c <= 'f' {
            (c as u64) - ('a' as u64) + 10
        } else if 'A' <= c && c <= 'F' {
            (c as u64) - ('A' as u64) + 10
        } else {
            assert(d[i - start] == c);
            assert(!all_hex(d));
            assert(parse_hex_u32(t) is None);
            return None;
        };
        assert(d.take(i + 1 - start).drop_last() =~= d.take(i - start));
        assert(d.take(i + 1 - start).last() == c);
        acc = acc * 16 + v;
        assert(all_hex(d.take(i + 1 - start))) by {
            assert forall|j: int| 0 <= j < d.take(i + 1 - start).len() implies hex_digit(
                #[trigger] d.take(i + 1 - start)[j],
            ).is_some() by {
                if j < i - start {
                    assert(d.take(i + 1 - start)[j] == d.take(i - start)[j]);
                }
            }
        }
        if acc > 0xFFFF_FFFF {
            proof {
                lemma_hex_number_grows(d, i + 1 - start, d.len() as int);
                assert(d.take(d.len() as int) =~= d);
                assert(hex_number(d) > u32::MAX);
                assert(parse_hex_u32(t) is None);
            }
            return None;
        }
        i = i + 1;
    }
    assert(d.take(n - start) =~= d);
    Some(acc as u32)
}

/// Reads a color text: its first character is dropped and the rest is read as
/// a base-16 number, 0 where that fails.
pub fn parse_color_value(c: &str) -> (r: u32)
    ensures
        r == color_value(c@),
{
    let n = c.unicode_len();
    if n == 0 {
        0
    } else {
        let p = parse_hex_from(c, 1);
        assert(c@.subrange(1, c@.len() as int) =~= c@.drop_first());
        match p {
            Some(v) => v,
            None => 0,
        }
    }
}

/// Red, green and blue of a packed `0xRRGGBB` value.
pub fn rgb_from_value(v: u32) -> (r: (u8, u8, u8))
    ensures
        r == rgb_of(v),
{
    (((v / 65536) % 256) as u8, ((v / 256) % 256) as u8, (v % 256) as u8)
}

/// The color assigned to a guild without one, from the checksum of its name.
pub open spec fn default_rgb(name: Seq<char>) -> (u8, u8, u8) {
    rgb_of(crc32_of_text(name))
}

/// The color of a guild: its own where it has one, else the one computed from its name.
pub open spec fn guild_rgb(g: GuildView) -> (u8, u8, u8) {
    match g.color {
        Some(c) => rgb_of(color_value(c)),
        None => default_rgb(g.name),
    }
}

impl PartialEq for Guild {
    fn eq(&self, other: &Guild) -> (r: bool) {
        self.same_as(other)
    }
}

impl vstd::std_specs::cmp::PartialEqSpecImpl for Guild {
    open spec fn obeys_eq_spec() -> bool {
        true
    }

    open spec fn eq_spec(&self, other: &Guild) -> bool {
        self@ == other@
    }
}

impl Default for Guild {
    /// The guild used where no owner is known: named `Nobody`, prefix `None`, white.
    fn default() -> (r: Guild)
        ensures
            r@ == (GuildView {
                uuid: None,
                name: "Nobody"@,
                prefix: "None"@,
                color: Some("#FFFFFF"@),
            }),
    {
        Guild::unowned()
    }
}

impl Guild {
    /// The guild used where no owner is known.
    pub fn unowned() -> (r: Guild)
        ensures
            r@ == (GuildView {
                uuid: None,
                name: "Nobody"@,
                prefix: "None"@,
                color: Some("#FFFFFF"@),
            }),
    {
        Guild {
            uuid: None,
            name: String::from_str("Nobody"),
            prefix: String::from_str("None"),
            color: Some(String::from_str("#FFFFFF")),
        }
    }

    /// Equality of all four fields.
    pub fn same_as(&self, other: &Guild) -> (r: bool)
        ensures
            r == (self@ == other@),
    {
        let uuid_eq = match (self.uuid, other.uuid) {
            (Some(a), Some(b)) => a == b,
            (None, None) => true,
            _ => false,
        };
        let color_eq = match (&self.color, &other.color) {
            (Some(a), Some(b)) => *a == *b,
            (None, None) => true,
            _ => false,
        };
        uuid_eq && self.name == other.name && self.prefix == other.prefix && color_eq
    }

    /// Red, green and blue of the guild's color, computed from its name where it has none.
    pub fn get_color(&self) -> (r: (u8, u8, u8))
        ensures
            r == guild_rgb(self@),
    {
        match &self.color {
            Some(c) => rgb_from_value(parse_color_value(c.as_str())),
            None => self.calculate_color(),
        }
    }

    /// The color text of the guild: its own, or `#RRGGBB` of the computed color.
    pub fn hex_color(&self) -> (r: String)
        ensures
            self.color is Some ==> r@ == self.color->0@,
            self.color is None ==> r@ == seq!['#'] + hex_byte_text(default_rgb(self@.name).0)
                + hex_byte_text(default_rgb(self@.name).1) + hex_byte_text(
                default_rgb(self@.name).2,
            ),
    {
        match &self.color {
            Some(c) => c.clone(),
            None => {
                let col = self.calculate_color();
                let mut out = String::from_str("#");
                proof {
                    reveal_strlit("#");
                }
                let r = hex_byte(col.0);
                out.append(r.as_str());
                let g = hex_byte(col.1);
                out.append(g.as_str());
                let b = hex_byte(col.2);
                out.append(b.as_str());
                out
            }
        }
    }

    /// The color computed from the CRC-32 checksum of the guild's name.
    pub fn calculate_color(&self) -> (r: (u8, u8, u8))
        ensures
            r == default_rgb(self@.name),
    {
        let h = crc32_text(self.name.as_str());
        rgb_from_value(h)
    }
}

} // verus!
