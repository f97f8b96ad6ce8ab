//! The functions of the map language.

use vstd::prelude::*;
use crate::symbols::find_name;
use crate::lexer::{is_hex_digit, hex_digit_value, hex_digit};

verus! {

/// The names of the functions, in the order of their table.
pub open spec fn function_names() -> Seq<Seq<char>> {
    seq!["hbar"@, "hbox"@, "hexcolor"@, "path"@, "rgb"@, "span"@, "vbox"@]
}

/// A reference to a function.
#[derive(Clone, Copy, Debug)]
pub struct Function(usize);

impl Function {
    /// The index of the function in the table.
    pub closed spec fn index(self) -> int {
        self.0 as int
    }

    /// Looks up a function by its name.
    pub fn lookup(name: &str) -> (res: Option<Self>)
        ensures
            match res {
                Some(f) => 0 <= f.index() < function_names().len()
                    && function_names()[f.index()] == name@
                    && forall|k: int| 0 <= k < f.index() ==> function_names()[k] != name@,
                None => !function_names().contains(name@),
            },
    {
        let table: [&str; 7] = ["hbar", "hbox", "hexcolor", "path", "rgb", "span", "vbox"];
        assert(table@.map_values(|s: &str| s@) =~= function_names());
        match find_name(&table, name) {
            Some(i) => Some(Function(i)),
            None => None,
        }
    }
}

//------------ Color codes ---------------------------------------------------

/// The value of two hexadecimal digits read as a byte.
pub open spec fn hex_byte(a: char, b: char) -> Option<u8> {
    if is_hex_digit(a) && is_hex_digit(b) {
        Some((hex_digit_value(a) * 16 + hex_digit_value(b)) as u8)
    } else {
        None
    }
}

/// The red, green and blue bytes of a color code of six hexadecimal
/// digits.
pub open spec fn spec_hex_color(t: Seq<char>) -> Option<(u8, u8, u8)> {
    if t.len() == 6 {
        match (hex_byte(t[0], t[1]), hex_byte(t[2], t[3]), hex_byte(t[4], t[5])) {
            (Some(r), Some(g), Some(b)) => Some((r, g, b)),
            _ => None,
        }
    } else {
        None
    }
}

/// Reads two characters as a hexadecimal byte.
fn read_hex_byte(a: char, b: char) -> (res: Option<u8>)
    ensures
        res == hex_byte(a, b),
{
    let b_hex = (b >= '0' && b <= '9') || (b >= 'a' && b <= 'f') || (b >= 'A' && b <= 'F');
    let a_hex = (a >= '0' && a <= '9') || (a >= 'a' && a <= 'f') || (a >= 'A' && a <= 'F');
    if a_hex && b_hex {
        let v = hex_digit(a) * 16 + hex_digit(b);
        Some(v as u8)
    } else {
        None
    }
}

/// Reads a color code such as `5a3a29`: six hexadecimal digits, each pair
/// a byte.
pub fn hex_color(t: &str) -> (res: Option<(u8, u8, u8)>)
    ensures
        res == spec_hex_color(t@),
{
    if t.unicode_len() != 6 {
        return None;
    }
    let r = read_hex_byte(t.get_char(0), t.get_char(1));
    let g = read_hex_byte(t.get_char(2), t.get_char(3));
    let b = read_hex_byte(t.get_char(4), t.get_char(5));
    match (r, g, b) {
        (Some(r), Some(g), Some(b)) => Some((r, g, b)),
        _ => None,
    }
}

//------------ Laws ------------------------------------------------------------

/// Two characters are a byte exactly when both are hexadecimal digits; the
/// first gives the high and the second the low four bits.
pub proof fn law_hex_byte(a: char, b: char)
    ensures
        hex_byte(a, b) is Some <==> is_hex_digit(a) && is_hex_digit(b),
        hex_byte(a, b) matches Some(v) ==> v / 16 == hex_digit_value(a) && v % 16 == hex_digit_value(b),
        ('0' <= a <= '9' && '0' <= b <= '9') ==> hex_byte(a, b) == Some(((a as int - '0' as int) * 16 + (b as int - '0' as int)) as u8),
{
    if is_hex_digit(a) && is_hex_digit(b) {
        let x = hex_digit_value(a);
        let y = hex_digit_value(b);
        assert(0 <= x < 16 && 0 <= y < 16);
        assert((x * 16 + y) / 16 == x && (x * 16 + y) % 16 == y) by (nonlinear_arith)
            requires 0 <= x < 16, 0 <= y < 16;
    }
}

/// A color code is six hexadecimal digits; each pair of them is one of the
/// red, green and blue bytes.
pub proof fn law_hex_color(t: Seq<char>)
    ensures
        spec_hex_color(t) is Some <==> (t.len() == 6 && forall|k: int| 0 <= k < 6 ==> is_hex_digit(#[trigger] t[k])),
        spec_hex_color(t) matches Some((r, g, b)) ==> (
            Some(r) == hex_byte(t[0], t[1]) && Some(g) == hex_byte(t[2], t[3]) && Some(b) == hex_byte(t[4], t[5])),
{
    law_hex_byte(t[0], t[1]);
    law_hex_byte(t[2], t[3]);
    law_hex_byte(t[4], t[5]);
    if t.len() == 6 && !(forall|k: int| 0 <= k < 6 ==> is_hex_digit(#[trigger] t[k])) {
        let k = choose|k: int| 0 <= k < 6 && !is_hex_digit(t[k]);
        assert(k == 0 || k == 1 || k == 2 || k == 3 || k == 4 || k == 5);
    }
}

} // verus!
