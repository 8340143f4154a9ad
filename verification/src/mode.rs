//! The `Mode` permission value: bit layout, algebra, builders,
//! display formatting and parsing.

use vstd::prelude::*;

verus! {

/// A bitmask selecting one or more of user/group/others across all
/// three permission kinds at once.
pub type Class = u32;

/// The three extra permission bits (setuid, setgid, sticky).
pub const EXTRA: Class = 0b111000000000;
/// The user class: bits 6, 7 and 8.
pub const USER: Class = 0b111000000;
/// The group class: bits 3, 4 and 5.
pub const GROUP: Class = 0b000111000;
/// The others class: bits 0, 1 and 2.
pub const OTHERS: Class = 0b000000111;
/// All three classes: the 9 standard permission bits.
pub const ALL: Class = 0b111111111;

/// A bitmask selecting one permission kind (read, write or exec)
/// across all three classes.
pub type Permission = u32;

/// Read permission for every class.
pub const READ: Permission = 0b100100100;
/// Write permission for every class.
pub const WRITE: Permission = 0b010010010;
/// Exec permission for every class.
pub const EXEC: Permission = 0b001001001;

/// One of the three high bits (sticky, setgid, setuid).
pub type ExtraPermission = u32;

/// When the sticky bit is set on a directory, files in that directory can only be
/// deleted by the owner.
pub const STICKY: ExtraPermission = 0o1000;
/// When the setgid bit is set on an executable file, the file will be executed
/// with the permissions of the file's group instead of the executing user's group.
///
/// When set on a directory, files and subdirectories created in it are assigned the
/// same group id as the parent directory.
pub const SETGID: ExtraPermission = 0o2000;
/// When the setuid bit is set on an executable file, the file will be executed
/// with the permissions of the file's owner instead of the executing user.
pub const SETUID: ExtraPermission = 0o4000;

/// Read permission for the user class alone.
pub fn user_read() -> (r: Mode)
    ensures
        r@ == (USER & READ),
{
    Mode { value: USER & READ }
}

/// Write permission for the user class alone.
pub fn user_write() -> (r: Mode)
    ensures
        r@ == (USER & WRITE),
{
    Mode { value: USER & WRITE }
}

/// Exec permission for the user class alone.
pub fn user_exec() -> (r: Mode)
    ensures
        r@ == (USER & EXEC),
{
    Mode { value: USER & EXEC }
}

/// Read permission for the group class alone.
pub fn group_read() -> (r: Mode)
    ensures
        r@ == (GROUP & READ),
{
    Mode { value: GROUP & READ }
}

/// Write permission for the group class alone.
pub fn group_write() -> (r: Mode)
    ensures
        r@ == (GROUP & WRITE),
{
    Mode { value: GROUP & WRITE }
}

/// Exec permission for the group class alone.
pub fn group_exec() -> (r: Mode)
    ensures
        r@ == (GROUP & EXEC),
{
    Mode { value: GROUP & EXEC }
}

/// Read permission for the others class alone.
pub fn others_read() -> (r: Mode)
    ensures
        r@ == (OTHERS & READ),
{
    Mode { value: OTHERS & READ }
}

/// Write permission for the others class alone.
pub fn others_write() -> (r: Mode)
    ensures
        r@ == (OTHERS & WRITE),
{
    Mode { value: OTHERS & WRITE }
}

/// Exec permission for the others class alone.
pub fn others_exec() -> (r: Mode)
    ensures
        r@ == (OTHERS & EXEC),
{
    Mode { value: OTHERS & EXEC }
}

/// Read permission for every class.
pub fn all_read() -> (r: Mode)
    ensures
        r@ == (ALL & READ),
{
    Mode { value: ALL & READ }
}

/// Write permission for every class.
pub fn all_write() -> (r: Mode)
    ensures
        r@ == (ALL & WRITE),
{
    Mode { value: ALL & WRITE }
}

/// Exec permission for every class.
pub fn all_exec() -> (r: Mode)
    ensures
        r@ == (ALL & EXEC),
{
    Mode { value: ALL & EXEC }
}

/// Represents permissions for a file.
///
/// The wrapped integer is the mode value bit for bit; two modes with
/// equal value are interchangeable. Bits above the 12 meaningful ones
/// are preserved but never interpreted.
#[derive(Clone, Copy, PartialEq, Eq, Structural, Hash, Debug)]
pub struct Mode {
    value: u32,
}

impl View for Mode {
    type V = u32;

    closed spec fn view(&self) -> u32 {
        self.value
    }
}

/// Containment of permission bits: every bit set in `other` is also
/// set in `v`.
pub open spec fn spec_has(v: u32, other: u32) -> bool {
    v & other == other
}

impl Mode {
    /// Build a mode with absolutely no permission.
    pub fn new() -> (r: Self)
        ensures
            r@ == 0u32,
    {
        Self { value: 0 }
    }

    /// Build a mode with all permissions given to everybody.
    /// This does not include [`ExtraPermission`] bits.
    pub fn all() -> (r: Self)
        ensures
            r@ == ALL,
    {
        Self { value: 0b111111111 }
    }

    /// Abstract constructor: the mode whose wrapped integer is `v`.
    pub closed spec fn spec_from(v: u32) -> Mode {
        Mode { value: v }
    }

    /// Wrap the given integer verbatim: no validation, no masking.
    pub fn from(value: u32) -> (r: Self)
        ensures
            r@ == value,
            r == Mode::spec_from(value),
    {
        Self { value }
    }

    /// The wrapped integer, unchanged.
    pub fn value(self) -> (r: u32)
        ensures
            r == self@,
    {
        self.value
    }

    /// Indicates whether the passed class/permissions are all present in self.
    pub fn has(self, other: Self) -> (r: bool)
        ensures
            r == spec_has(self@, other@),
    {
        self.value & other.value == other.value
    }

    /// Indicates whether the passed extra permission is present in self.
    pub fn has_extra(self, other: ExtraPermission) -> (r: bool)
        ensures
            r == spec_has(self@, other),
    {
        self.value & other == other
    }

    /// Finds if the mode indicates an executable file: true iff at
    /// least one of the three exec bits (positions 0, 3 and 6) is set.
    pub fn is_exe(self) -> (r: bool)
        ensures
            r == (self@ & EXEC != 0u32),
            r == (self@ & 0o100u32 == 0o100 || self@ & 0o010u32 == 0o010 || self@ & 0o001u32
                == 0o001),
    {
        proof {
            let v: u32 = self@;
            assert((v & 0o111u32 != 0) == (v & 0o100u32 == 0o100 || v & 0o010u32 == 0o010 || v
                & 0o001u32 == 0o001)) by (bit_vector);
        }
        (self.value & 0o111) != 0
    }

    /// Bitwise intersection: the permissions common to both operands.
    pub fn bitand(self, other: Self) -> (r: Self)
        ensures
            r@ == self@ & other@,
    {
        Self { value: self.value & other.value }
    }

    /// Replace self by the bitwise intersection of self and `other`.
    pub fn bitand_assign(&mut self, other: Self)
        ensures
            final(self)@ == old(self)@ & other@,
    {
        self.value = self.value & other.value;
    }

    /// Bitwise union: the permissions present in either operand.
    pub fn bitor(self, other: Self) -> (r: Self)
        ensures
            r@ == self@ | other@,
    {
        Self { value: self.value | other.value }
    }

    /// Replace self by the bitwise union of self and `other`.
    pub fn bitor_assign(&mut self, other: Self)
        ensures
            final(self)@ == old(self)@ | other@,
    {
        self.value = self.value | other.value;
    }

    /// Bitwise complement of the wrapped integer. All 32 bits are
    /// flipped, including those beyond the 12 meaningful ones.
    pub fn not(self) -> (r: Self)
        ensures
            r@ == !self@,
    {
        Self { value: !self.value }
    }

    /// Return a new mode, with the extra permission set
    /// (does nothing if the extra permission is already set for the mode).
    pub fn with_extra(self, perm: ExtraPermission) -> (r: Self)
        ensures
            r@ == self@ | perm,
    {
        Self { value: self.value | perm }
    }

    /// Return a new mode, without the extra permission set
    /// (does nothing if the extra permission is not set for the mode).
    pub fn without_extra(self, perm: ExtraPermission) -> (r: Self)
        ensures
            r@ == self@ & !perm,
    {
        Self { value: self.value & !perm }
    }

    /// Return a new mode, without any extra permission bits set
    /// (does nothing if no extra permissions are set for the mode).
    pub fn without_any_extra(self) -> (r: Self)
        ensures
            r@ == self@ & !EXTRA,
    {
        Self { value: self.value & !EXTRA }
    }

    /// Return a new mode, with the permission added for the class
    /// (does nothing if the permission is already given to that class,
    /// or if the class and permission masks do not overlap).
    pub fn with_class_perm(self, class: Class, perm: Permission) -> (r: Self)
        ensures
            r@ == self@ | (class & perm),
    {
        Self { value: self.value | (class & perm) }
    }

    /// Return a new mode, with the permission removed for the class
    /// (does nothing if the permission is not given to that class,
    /// or if the class and permission masks do not overlap).
    pub fn without_class_perm(self, class: Class, perm: Permission) -> (r: Self)
        ensures
            r@ == self@ & !(class & perm),
    {
        Self { value: self.value & !(class & perm) }
    }

    /// Add the class/permissions of the other mode.
    pub fn with(self, other: Mode) -> (r: Self)
        ensures
            r@ == self@ | other@,
    {
        Self { value: self.value | other.value }
    }

    /// Remove the class/permissions of the other mode.
    pub fn without(self, other: Mode) -> (r: Self)
        ensures
            r@ == self@ & !other@,
    {
        Self { value: self.value & !other.value }
    }
}

/// The character shown for a plain read or write cell: `c` if every
/// bit of `mask` is set in `v`, `-` otherwise.
pub open spec fn flag_char(v: u32, mask: u32, c: char) -> char {
    if v & mask == mask {
        c
    } else {
        '-'
    }
}

/// The character shown for an exec-or-special cell: the extra bit and
/// the exec bit of one class combine into a single character, with
/// the extra bit taking precedence (lowercase when exec is also set,
/// uppercase when it is not).
pub open spec fn exec_char(v: u32, extra: u32, exec: u32, low: char, up: char) -> char {
    if v & extra == extra {
        if v & exec == exec {
            low
        } else {
            up
        }
    } else if v & exec == exec {
        'x'
    } else {
        '-'
    }
}

/// The 9-character display string of a mode value: user, group and
/// others cells in order, read then write then exec-or-special.
pub open spec fn display_of(v: u32) -> Seq<char> {
    seq![
        flag_char(v, 0o400, 'r'),
        flag_char(v, 0o200, 'w'),
        exec_char(v, SETUID, 0o100, 's', 'S'),
        flag_char(v, 0o040, 'r'),
        flag_char(v, 0o020, 'w'),
        exec_char(v, SETGID, 0o010, 's', 'S'),
        flag_char(v, 0o004, 'r'),
        flag_char(v, 0o002, 'w'),
        exec_char(v, STICKY, 0o001, 't', 'T'),
    ]
}

/// The one-character string for a read cell.
fn read_cell(v: u32, mask: u32) -> (r: &'static str)
    ensures
        r@ == seq![flag_char(v, mask, 'r')],
{
    proof {
        reveal_strlit("r");
        reveal_strlit("-");
    }
    if v & mask == mask {
        proof {
            assert("r"@ =~= seq![flag_char(v, mask, 'r')]);
        }
        "r"
    } else {
        proof {
            assert("-"@ =~= seq![flag_char(v, mask, 'r')]);
        }
        "-"
    }
}

/// The one-character string for a write cell.
fn write_cell(v: u32, mask: u32) -> (r: &'static str)
    ensures
        r@ == seq![flag_char(v, mask, 'w')],
{
    proof {
        reveal_strlit("w");
        reveal_strlit("-");
    }
    if v & mask == mask {
        proof {
            assert("w"@ =~= seq![flag_char(v, mask, 'w')]);
        }
        "w"
    } else {
        proof {
            assert("-"@ =~= seq![flag_char(v, mask, 'w')]);
        }
        "-"
    }
}

/// The one-character string for the exec-or-special cell of the user
/// or group class (`s`/`S`).
fn setid_cell(v: u32, extra: u32, exec: u32) -> (r: &'static str)
    ensures
        r@ == seq![exec_char(v, extra, exec, 's', 'S')],
{
    proof {
        reveal_strlit("s");
        reveal_strlit("S");
        reveal_strlit("x");
        reveal_strlit("-");
    }
    if v & extra == extra && v & exec == exec {
        proof {
            assert("s"@ =~= seq![exec_char(v, extra, exec, 's', 'S')]);
        }
        "s"
    } else if v & extra == extra {
        proof {
            assert("S"@ =~= seq![exec_char(v, extra, exec, 's', 'S')]);
        }
        "S"
    } else if v & exec == exec {
        proof {
            assert("x"@ =~= seq![exec_char(v, extra, exec, 's', 'S')]);
        }
        "x"
    } else {
        proof {
            assert("-"@ =~= seq![exec_char(v, extra, exec, 's', 'S')]);
        }
        "-"
    }
}

/// The one-character string for the exec-or-special cell of the
/// others class (`t`/`T`).
fn sticky_cell(v: u32) -> (r: &'static str)
    ensures
        r@ == seq![exec_char(v, STICKY, 0o001, 't', 'T')],
{
    proof {
        reveal_strlit("t");
        reveal_strlit("T");
        reveal_strlit("x");
        reveal_strlit("-");
    }
    if v & STICKY == STICKY && v & 0o001 == 0o001 {
        proof {
            assert("t"@ =~= seq![exec_char(v, STICKY, 0o001, 't', 'T')]);
        }
        "t"
    } else if v & STICKY == STICKY {
        proof {
            assert("T"@ =~= seq![exec_char(v, STICKY, 0o001, 't', 'T')]);
        }
        "T"
    } else if v & 0o001 == 0o001 {
        proof {
            assert("x"@ =~= seq![exec_char(v, STICKY, 0o001, 't', 'T')]);
        }
        "x"
    } else {
        proof {
            assert("-"@ =~= seq![exec_char(v, STICKY, 0o001, 't', 'T')]);
        }
        "-"
    }
}

impl Mode {
    /// Format the mode as its 9-character permission string.
    ///
    /// The extra permission bits modify how the exec cells are
    /// displayed if set. If you want the plain `rwxrwxrwx` form, call
    /// [`Mode::without_any_extra()`] before formatting: display never
    /// silently drops information.
    pub fn to_string(&self) -> (r: String)
        ensures
            r@ == display_of(self@),
            r@.len() == 9,
    {
        let v = self.value;
        let mut s = String::from_str(read_cell(v, 0o400));
        s.append(write_cell(v, 0o200));
        s.append(setid_cell(v, SETUID, 0o100));
        s.append(read_cell(v, 0o040));
        s.append(write_cell(v, 0o020));
        s.append(setid_cell(v, SETGID, 0o010));
        s.append(read_cell(v, 0o004));
        s.append(write_cell(v, 0o002));
        s.append(sticky_cell(v));
        proof {
            assert(s@ =~= display_of(self@));
        }
        s
    }
}

/// Parsing error.
#[derive(Clone, Copy, PartialEq, Eq, Structural, Debug)]
pub enum ParseError {
    /// An unexpected character, with its 0-based position.
    InvalidChar(char, usize),
    /// Fewer than 9 characters were supplied.
    NotEnoughInput,
    /// More than 9 characters were supplied.
    TrailingCharacters,
}

/// Whether `c` is acceptable at the 0-based position `pos` of a
/// 9-character permission string: `r` or `-` in a read cell, `w` or
/// `-` in a write cell, and `x`, `-` or the class-appropriate special
/// pair (`s`/`S` for user and group, `t`/`T` for others) in an
/// exec-or-special cell.
pub open spec fn valid_cell_char(pos: int, c: char) -> bool {
    if pos % 3 == 0 {
        c == 'r' || c == '-'
    } else if pos % 3 == 1 {
        c == 'w' || c == '-'
    } else if pos < 8 {
        c == 'x' || c == 's' || c == 'S' || c == '-'
    } else {
        c == 'x' || c == 't' || c == 'T' || c == '-'
    }
}

/// The permission bits that the character at the 0-based position
/// `pos` contributes: a lowercase special character sets both the
/// extra bit and the exec bit, an uppercase one only the extra bit.
pub open spec fn cell_value(pos: int, c: char) -> u32 {
    if pos == 0 {
        if c == 'r' {
            0o400u32
        } else {
            0u32
        }
    } else if pos == 1 {
        if c == 'w' {
            0o200u32
        } else {
            0u32
        }
    } else if pos == 2 {
        if c == 's' {
            0o4100u32
        } else if c == 'S' {
            0o4000u32
        } else if c == 'x' {
            0o100u32
        } else {
            0u32
        }
    } else if pos == 3 {
        if c == 'r' {
            0o040u32
        } else {
            0u32
        }
    } else if pos == 4 {
        if c == 'w' {
            0o020u32
        } else {
            0u32
        }
    } else if pos == 5 {
        if c == 's' {
            0o2010u32
        } else if c == 'S' {
            0o2000u32
        } else if c == 'x' {
            0o010u32
        } else {
            0u32
        }
    } else if pos == 6 {
        if c == 'r' {
            0o004u32
        } else {
            0u32
        }
    } else if pos == 7 {
        if c == 'w' {
            0o002u32
        } else {
            0u32
        }
    } else {
        if c == 't' {
            0o1001u32
        } else if c == 'T' {
            0o1000u32
        } else if c == 'x' {
            0o001u32
        } else {
            0u32
        }
    }
}

/// The bits contributed by the first `k` cells of `s`, combined.
pub open spec fn parsed_prefix(s: Seq<char>, k: int) -> u32
    decreases k,
{
    if k <= 0 {
        0u32
    } else {
        parsed_prefix(s, k - 1) | cell_value(k - 1, s[k - 1])
    }
}

/// The mode value denoted by a valid 9-character permission string.
pub open spec fn parsed_value(s: Seq<char>) -> u32 {
    parsed_prefix(s, 9)
}

/// The bits contributed by character `c` at position `i`, or `None`
/// when `c` is not acceptable there.
fn cell_bits(i: usize, c: char) -> (r: Option<u32>)
    requires
        i < 9,
    ensures
        r is Some <==> valid_cell_char(i as int, c),
        r matches Some(b) ==> b == cell_value(i as int, c),
{
    let k = i % 3;
    if k == 0 {
        proof {
            assert(i == 0 || i == 3 || i == 6);
        }
        let bit: u32 = if i == 0 {
            0o400
        } else if i == 3 {
            0o040
        } else {
            0o004
        };
        if c == 'r' {
            Some(bit)
        } else if c == '-' {
            Some(0)
        } else {
            None
        }
    } else if k == 1 {
        proof {
            assert(i == 1 || i == 4 || i == 7);
        }
        let bit: u32 = if i == 1 {
            0o200
        } else if i == 4 {
            0o020
        } else {
            0o002
        };
        if c == 'w' {
            Some(bit)
        } else if c == '-' {
            Some(0)
        } else {
            None
        }
    } else if i < 8 {
        proof {
            assert(i == 2 || i == 5);
        }
        let both: u32 = if i == 2 {
            0o4100
        } else {
            0o2010
        };
        let extra: u32 = if i == 2 {
            SETUID
        } else {
            SETGID
        };
        let exec: u32 = if i == 2 {
            0o100
        } else {
            0o010
        };
        if c == 's' {
            Some(both)
        } else if c == 'S' {
            Some(extra)
        } else if c == 'x' {
            Some(exec)
        } else if c == '-' {
            Some(0)
        } else {
            None
        }
    } else {
        proof {
            assert(i == 8);
        }
        if c == 't' {
            Some(0o1001)
        } else if c == 'T' {
            Some(STICKY)
        } else if c == 'x' {
            Some(0o001)
        } else if c == '-' {
            Some(0)
        } else {
            None
        }
    }
}

impl Mode {
    /// Try to parse a mode from a string.
    ///
    /// Exactly 9 characters are consumed, one per cell, left to
    /// right. The first unacceptable character fails the parse with
    /// its position; input that ends before the 9th cell fails with
    /// [`ParseError::NotEnoughInput`], and input that goes on past it
    /// with [`ParseError::TrailingCharacters`].
    pub fn parse(s: &str) -> (r: Result<Mode, ParseError>)
        ensures
            ({
                let t = s@;
                match r {
                    Ok(m) => t.len() == 9 && (forall|j: int|
                        0 <= j < 9 ==> valid_cell_char(j, t[j])) && m@ == parsed_value(t),
                    Err(e) => match e {
                        ParseError::InvalidChar(c, p) => p < 9 && p < t.len() && c == t[p as int]
                            && !valid_cell_char(p as int, t[p as int]) && (forall|j: int|
                            0 <= j < p ==> valid_cell_char(j, t[j])),
                        ParseError::NotEnoughInput => t.len() < 9 && (forall|j: int|
                            0 <= j < t.len() ==> valid_cell_char(j, t[j])),
                        ParseError::TrailingCharacters => t.len() > 9 && (forall|j: int|
                            0 <= j < 9 ==> valid_cell_char(j, t[j])),
                    },
                }
            }),
    {
        let n = s.unicode_len();
        let mut value: u32 = 0;
        let mut i: usize = 0;
        while i < 9
            invariant
                i <= 9,
                i <= n,
                n == s@.len(),
                forall|j: int| 0 <= j < i ==> valid_cell_char(j, s@[j]),
                value == parsed_prefix(s@, i as int),
            decreases 9 - i,
        {
            if i >= n {
                return Err(ParseError::NotEnoughInput);
            }
            let c = s.get_char(i);
            match cell_bits(i, c) {
                Some(bits) => {
                    proof {
                        assert(parsed_prefix(s@, i + 1) == parsed_prefix(s@, i as int)
                            | cell_value(i as int, s@[i as int]));
                    }
                    value = value | bits;
                },
                None => {
                    return Err(ParseError::InvalidChar(c, i));
                },
            }
            i = i + 1;
        }
        if n > 9 {
            return Err(ParseError::TrailingCharacters);
        }
        Ok(Mode { value })
    }
}

impl Default for Mode {
    /// The default mode has no permission at all.
    fn default() -> (r: Self)
        ensures
            r@ == 0u32,
    {
        Mode::new()
    }
}

impl core::str::FromStr for Mode {
    type Err = ParseError;

    fn from_str(s: &str) -> Result<Self, Self::Err> {
        Mode::parse(s)
    }
}

/// Wrapping an integer in a mode and reading it back yields the
/// integer unchanged; conversely a mode is nothing but its wrapped
/// integer. The numeric round-trip is lossless in both directions.
pub proof fn lemma_value_round_trip(m: Mode, v: u32)
    ensures
        Mode::spec_from(v)@ == v,
        Mode::spec_from(m@) == m,
{
}

/// `has` is reflexive, and the empty mode is contained in every mode:
/// `m.has(m)` and `m.has(Mode::new())` hold for every mode `m`.
pub proof fn lemma_has_reflexive(m: Mode)
    ensures
        spec_has(m@, m@),
        spec_has(m@, 0u32),
{
    let v: u32 = m@;
    assert(v & v == v) by (bit_vector);
    assert(v & 0 == 0) by (bit_vector);
}

/// Format/parse round-trip: every string that formatting produces is
/// a valid 9-character permission string, parsing it back yields
/// exactly the mode's 12 meaningful bits, and formatting the parsed
/// mode reproduces the string unchanged.
pub proof fn lemma_display_parse_round_trip(m: Mode)
    ensures
        display_of(m@).len() == 9,
        forall|j: int| 0 <= j < 9 ==> valid_cell_char(j, display_of(m@)[j]),
        parsed_value(display_of(m@)) == m@ & 0xFFFu32,
        display_of(parsed_value(display_of(m@))) == display_of(m@),
{
    let v: u32 = m@;
    let s = display_of(v);
    assert forall|j: int| 0 <= j < 9 implies valid_cell_char(j, s[j]) by {
        if j == 0 || j == 3 || j == 6 {
            assert(s[j] == 'r' || s[j] == '-');
        } else if j == 1 || j == 4 || j == 7 {
            assert(s[j] == 'w' || s[j] == '-');
        } else if j == 2 || j == 5 {
            assert(s[j] == 'x' || s[j] == 's' || s[j] == 'S' || s[j] == '-');
        } else {
            assert(s[j] == 'x' || s[j] == 't' || s[j] == 'T' || s[j] == '-');
        }
    }
    let b0 = cell_value(0, s[0]);
    let b1 = cell_value(1, s[1]);
    let b2 = cell_value(2, s[2]);
    let b3 = cell_value(3, s[3]);
    let b4 = cell_value(4, s[4]);
    let b5 = cell_value(5, s[5]);
    let b6 = cell_value(6, s[6]);
    let b7 = cell_value(7, s[7]);
    let b8 = cell_value(8, s[8]);
    assert(parsed_prefix(s, 0) == 0u32);
    assert(parsed_prefix(s, 1) == parsed_prefix(s, 0) | b0);
    assert(parsed_prefix(s, 2) == parsed_prefix(s, 1) | b1);
    assert(parsed_prefix(s, 3) == parsed_prefix(s, 2) | b2);
    assert(parsed_prefix(s, 4) == parsed_prefix(s, 3) | b3);
    assert(parsed_prefix(s, 5) == parsed_prefix(s, 4) | b4);
    assert(parsed_prefix(s, 6) == parsed_prefix(s, 5) | b5);
    assert(parsed_prefix(s, 7) == parsed_prefix(s, 6) | b6);
    assert(parsed_prefix(s, 8) == parsed_prefix(s, 7) | b7);
    assert(parsed_prefix(s, 9) == parsed_prefix(s, 8) | b8);
    assert(b0 == (if v & 0o400u32 == 0o400 {
        0o400u32
    } else {
        0u32
    }));
    assert(b1 == (if v & 0o200u32 == 0o200 {
        0o200u32
    } else {
        0u32
    }));
    assert(b2 == (if v & 0o4000u32 == 0o4000 && v & 0o100u32 == 0o100 {
        0o4100u32
    } else if v & 0o4000u32 == 0o4000 {
        0o4000u32
    } else if v & 0o100u32 == 0o100 {
        0o100u32
    } else {
        0u32
    }));
    assert(b3 == (if v & 0o040u32 == 0o040 {
        0o040u32
    } else {
        0u32
    }));
    assert(b4 == (if v & 0o020u32 == 0o020 {
        0o020u32
    } else {
        0u32
    }));
    assert(b5 == (if v & 0o2000u32 == 0o2000 && v & 0o010u32 == 0o010 {
        0o2010u32
    } else if v & 0o2000u32 == 0o2000 {
        0o2000u32
    } else if v & 0o010u32 == 0o010 {
        0o010u32
    } else {
        0u32
    }));
    assert(b6 == (if v & 0o004u32 == 0o004 {
        0o004u32
    } else {
        0u32
    }));
    assert(b7 == (if v & 0o002u32 == 0o002 {
        0o002u32
    } else {
        0u32
    }));
    assert(b8 == (if v & 0o1000u32 == 0o1000 && v & 0o001u32 == 0o001 {
        0o1001u32
    } else if v & 0o1000u32 == 0o1000 {
        0o1000u32
    } else if v & 0o001u32 == 0o001 {
        0o001u32
    } else {
        0u32
    }));
    assert(0u32 | b0 | b1 | b2 | b3 | b4 | b5 | b6 | b7 | b8 == v & 0xFFFu32) by (bit_vector)
        requires
            b0 == (if v & 0o400u32 == 0o400 {
                0o400u32
            } else {
                0u32
            }),
            b1 == (if v & 0o200u32 == 0o200 {
                0o200u32
            } else {
                0u32
            }),
            b2 == (if v & 0o4000u32 == 0o4000 && v & 0o100u32 == 0o100 {
                0o4100u32
            } else if v & 0o4000u32 == 0o4000 {
                0o4000u32
            } else if v & 0o100u32 == 0o100 {
                0o100u32
            } else {
                0u32
            }),
            b3 == (if v & 0o040u32 == 0o040 {
                0o040u32
            } else {
                0u32
            }),
            b4 == (if v & 0o020u32 == 0o020 {
                0o020u32
            } else {
                0u32
            }),
            b5 == (if v & 0o2000u32 == 0o2000 && v & 0o010u32 == 0o010 {
                0o2010u32
            } else if v & 0o2000u32 == 0o2000 {
                0o2000u32
            } else if v & 0o010u32 == 0o010 {
                0o010u32
            } else {
                0u32
            }),
            b6 == (if v & 0o004u32 == 0o004 {
                0o004u32
            } else {
                0u32
            }),
            b7 == (if v & 0o002u32 == 0o002 {
                0o002u32
            } else {
                0u32
            }),
            b8 == (if v & 0o1000u32 == 0o1000 && v & 0o001u32 == 0o001 {
                0o1001u32
            } else if v & 0o1000u32 == 0o1000 {
                0o1000u32
            } else if v & 0o001u32 == 0o001 {
                0o001u32
            } else {
                0u32
            }),
    ;
    assert(parsed_value(s) == v & 0xFFFu32);
    let p: u32 = v & 0xFFFu32;
    assert(p & 0o400u32 == v & 0o400u32 && p & 0o200u32 == v & 0o200u32 && p & 0o100u32 == v
        & 0o100u32 && p & 0o040u32 == v & 0o040u32 && p & 0o020u32 == v & 0o020u32 && p & 0o010u32
        == v & 0o010u32 && p & 0o004u32 == v & 0o004u32 && p & 0o002u32 == v & 0o002u32 && p
        & 0o001u32 == v & 0o001u32 && p & 0o4000u32 == v & 0o4000u32 && p & 0o2000u32 == v
        & 0o2000u32 && p & 0o1000u32 == v & 0o1000u32) by (bit_vector)
        requires
            p == v & 0xFFFu32,
    ;
    assert(display_of(p) =~= display_of(v));
}

/// Adding a class/permission and then removing it clears exactly the
/// bits in `class & perm` and leaves every bit outside that mask
/// untouched: `m.with_class_perm(class, perm).without_class_perm(class,
/// perm)` equals `m.without_class_perm(class, perm)`.
pub proof fn lemma_class_perm_inverse(m: Mode, class: Class, perm: Permission)
    ensures
        (m@ | (class & perm)) & !(class & perm) == m@ & !(class & perm),
{
    let v: u32 = m@;
    assert((v | (class & perm)) & !(class & perm) == v & !(class & perm)) by (bit_vector);
}

} // verus!
