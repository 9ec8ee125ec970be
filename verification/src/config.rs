use vstd::prelude::*;

verus! {

/// Keyboard key names for the eight Game Boy buttons.
#[derive(Debug, Clone, PartialEq, Eq)]
pub struct InputConfig {
    pub up: String,
    pub down: String,
    pub left: String,
    pub right: String,
    pub a: String,
    pub b: String,
    pub start: String,
    pub select: String,
}

impl Default for InputConfig {
    /// Arrow keys for the D-pad, Z for A, X for B, Return for Start and Right Shift for Select.
    fn default() -> (r: Self)
        ensures
            r.up@ == "Up"@,
            r.down@ == "Down"@,
            r.left@ == "Left"@,
            r.right@ == "Right"@,
            r.a@ == "Z"@,
            r.b@ == "X"@,
            r.start@ == "Return"@,
            r.select@ == "Right Shift"@,
    {
        Self {
            up: String::from_str("Up"),
            down: String::from_str("Down"),
            left: String::from_str("Left"),
            right: String::from_str("Right"),
            a: String::from_str("Z"),
            b: String::from_str("X"),
            start: String::from_str("Return"),
            select: String::from_str("Right Shift"),
        }
    }
}

/// Keyboard key names for the emulator's hotkeys; None leaves a hotkey unbound.
#[derive(Debug, Clone, PartialEq, Eq)]
pub struct HotkeyConfig {
    pub exit: Option<String>,
    pub toggle_fullscreen: Option<String>,
    pub save_state: Option<String>,
    pub load_state: Option<String>,
    pub fast_forward: Option<String>,
}

/// Whether an optional string holds the given text.
pub open spec fn holds_text(s: Option<String>, text: Seq<char>) -> bool {
    s matches Some(v) && v@ == text
}

impl Default for HotkeyConfig {
    /// Escape exits, F9 toggles fullscreen, F5 saves state, F6 loads state and Tab fast-forwards.
    fn default() -> (r: Self)
        ensures
            holds_text(r.exit, "Escape"@),
            holds_text(r.toggle_fullscreen, "F9"@),
            holds_text(r.save_state, "F5"@),
            holds_text(r.load_state, "F6"@),
            holds_text(r.fast_forward, "Tab"@),
    {
        Self {
            exit: Some(String::from_str("Escape")),
            toggle_fullscreen: Some(String::from_str("F9")),
            save_state: Some(String::from_str("F5")),
            load_state: Some(String::from_str("F6")),
            fast_forward: Some(String::from_str("Tab")),
        }
    }
}

/// A gamepad input: a button, or an axis pushed to its negative or positive side.
#[derive(Debug, Clone, Copy, PartialEq, Eq, Hash, Structural)]
pub enum ControllerInput {
    Button(u8),
    AxisNegative(u8),
    AxisPositive(u8),
}

/// A character with ASCII uppercase letters mapped to lowercase.
pub open spec fn ascii_lower(c: char) -> char {
    if 0x41 <= (c as u32) <= 0x5A {
        ((c as u32) + 32) as char
    } else {
        c
    }
}

/// A string with ASCII uppercase letters mapped to lowercase; other characters are unchanged.
pub open spec fn ascii_lowercase(s: Seq<char>) -> Seq<char> {
    s.map_values(|c: char| ascii_lower(c))
}

/// `str::to_ascii_lowercase`, which maps 'A' to 'Z' to 'a' to 'z' and leaves every other
/// character as it is (std's documentation).
#[verifier::external_body]
fn to_ascii_lowercase(s: &str) -> (r: String)
    ensures
        r@ == ascii_lowercase(s@),
{
    s.to_ascii_lowercase()
}

pub open spec fn is_decimal_digit(c: char) -> bool {
    0x30 <= (c as u32) <= 0x39
}

/// The value of a string of decimal digits.
pub open spec fn decimal_value(digits: Seq<char>) -> nat
    decreases digits.len(),
{
    if digits.len() == 0 {
        0
    } else {
        decimal_value(digits.drop_last()) * 10 + ((digits.last() as u32) - 0x30) as nat
    }
}

/// A string of at least one decimal digit, read as a byte if its value is at most 255.
pub open spec fn spec_parse_digits(digits: Seq<char>) -> Option<u8> {
    if digits.len() > 0 && (forall|i: int| 0 <= i < digits.len() ==> is_decimal_digit(#[trigger] digits[i]))
        && decimal_value(digits) <= 255 {
        Some(decimal_value(digits) as u8)
    } else {
        None
    }
}

/// What `u8::from_str` accepts: an optional '+' and then at least one decimal digit, with a value
/// of at most 255.
pub open spec fn spec_parse_u8(s: Seq<char>) -> Option<u8> {
    if s.len() > 0 && s[0] == '+' {
        spec_parse_digits(s.drop_first())
    } else {
        spec_parse_digits(s)
    }
}

/// A prefix of digits is worth no more than all of them.
proof fn lemma_decimal_value_prefix(digits: Seq<char>, k: int)
    requires
        0 <= k <= digits.len(),
        forall|i: int| 0 <= i < digits.len() ==> is_decimal_digit(#[trigger] digits[i]),
    ensures
        decimal_value(digits.subrange(0, k)) <= decimal_value(digits),
    decreases digits.len(),
{
    if k < digits.len() {
        let shorter = digits.drop_last();
        assert(shorter.subrange(0, k) =~= digits.subrange(0, k));
        assert(forall|i: int| 0 <= i < shorter.len() ==> shorter[i] == digits[i]);
        lemma_decimal_value_prefix(shorter, k);
    } else {
        assert(digits.subrange(0, k) =~= digits);
    }
}

/// Parse a `u8` as `u8::from_str` does.
fn parse_u8(s: &str) -> (r: Option<u8>)
    ensures
        r == spec_parse_u8(s@),
{
    let n = s.unicode_len();
    let mut start: usize = 0;
    if n > 0 && s.get_char(0) == '+' {
        start = 1;
    }
    let ghost digits = if s@.len() > 0 && s@[0] == '+' {
        s@.drop_first()
    } else {
        s@
    };
    assert(digits =~= s@.subrange(start as int, n as int));
    assert(spec_parse_u8(s@) == spec_parse_digits(digits));
    if start == n {
        return None;
    }
    let mut i: usize = start;
    let mut value: u32 = 0;
    while i < n
        invariant
            start <= i <= n,
            n == s@.len(),
            start < n,
            digits == s@.subrange(start as int, n as int),
            spec_parse_u8(s@) == spec_parse_digits(digits),
            forall|j: int| start <= j < i ==> is_decimal_digit(#[trigger] s@[j]),
            value == decimal_value(s@.subrange(start as int, i as int)),
            value <= 255,
        decreases n - i,
    {
        let c = s.get_char(i);
        let code = c as u32;
        if code < 0x30 || code > 0x39 {
            assert(!is_decimal_digit(digits[i - start]));
            assert(spec_parse_digits(digits) is None);
            return None;
        }
        assert(s@.subrange(start as int, i + 1).drop_last() =~= s@.subrange(start as int, i as int));
        value = value * 10 + (code - 0x30);
        if value > 255 {
            proof {
                if forall|j: int| 0 <= j < digits.len() ==> is_decimal_digit(#[trigger] digits[j]) {
                    lemma_decimal_value_prefix(digits, i + 1 - start);
                    assert(digits.subrange(0, i + 1 - start) =~= s@.subrange(start as int, i + 1));
                }
                assert(spec_parse_digits(digits) is None);
            }
            return None;
        }
        i += 1;
    }
    assert(s@.subrange(start as int, n as int) =~= digits);
    Some(value as u8)
}

/// Whether a string holds no space character.
pub open spec fn no_space(s: Seq<char>) -> bool {
    forall|i: int| 0 <= i < s.len() ==> #[trigger] s[i] != ' '
}

/// Whether `s` starts with `prefix`.
fn has_prefix(s: &str, prefix: &str) -> (r: bool)
    ensures
        r == (prefix@.len() <= s@.len() && s@.subrange(0, prefix@.len() as int) == prefix@),
{
    let n = s.unicode_len();
    let m = prefix.unicode_len();
    if m > n {
        return false;
    }
    let mut i: usize = 0;
    while i < m
        invariant
            i <= m <= n,
            n == s@.len(),
            m == prefix@.len(),
            forall|j: int| 0 <= j < i ==> s@[j] == prefix@[j],
        decreases m - i,
    {
        if s.get_char(i) != prefix.get_char(i) {
            assert(s@.subrange(0, m as int)[i as int] != prefix@[i as int]);
            return false;
        }
        i += 1;
    }
    assert(s@.subrange(0, m as int) =~= prefix@);
    true
}

/// Whether the characters of `s` from `from` up to `to` hold no space.
fn no_space_between(s: &str, from: usize, to: usize) -> (r: bool)
    requires
        from <= to <= s@.len(),
    ensures
        r == no_space(s@.subrange(from as int, to as int)),
{
    let mut i: usize = from;
    while i < to
        invariant
            from <= i <= to <= s@.len(),
            forall|j: int| from <= j < i ==> s@[j] != ' ',
        decreases to - i,
    {
        if s.get_char(i) == ' ' {
            assert(s@.subrange(from as int, to as int)[i - from] == ' ');
            return false;
        }
        i += 1;
    }
    assert forall|j: int| 0 <= j < s@.subrange(from as int, to as int).len() implies #[trigger] s@.subrange(
        from as int,
        to as int,
    )[j] != ' ' by {
        assert(s@.subrange(from as int, to as int)[j] == s@[from + j]);
    }
    true
}

/// The message of a rejected index.
pub open spec fn index_error(kind: Seq<char>, index: Seq<char>) -> Seq<char> {
    "invalid "@ + kind + " index: '"@ + index + "'"@
}

/// What a gamepad input string means, case-insensitively: "button N", "axis N +" or
/// "axis N -" with N a `u8`, the words separated by single spaces. A malformed index, or any
/// other string, is rejected with a message that quotes it (lowercased).
pub open spec fn spec_parse_controller_input(s: Seq<char>) -> Result<ControllerInput, Seq<char>> {
    let l = ascii_lowercase(s);
    let len = l.len() as int;
    if len >= 7 && l.subrange(0, 7) == "button "@ && no_space(l.subrange(7, len)) {
        let index = l.subrange(7, len);
        match spec_parse_u8(index) {
            Some(n) => Ok(ControllerInput::Button(n)),
            None => Err(index_error("button"@, index)),
        }
    } else if len >= 7 && l.subrange(0, 5) == "axis "@ && l[len - 2] == ' ' && (l[len - 1] == '+'
        || l[len - 1] == '-') && no_space(l.subrange(5, len - 2)) {
        let index = l.subrange(5, len - 2);
        match spec_parse_u8(index) {
            Some(n) => Ok(
                if l[len - 1] == '+' {
                    ControllerInput::AxisPositive(n)
                } else {
                    ControllerInput::AxisNegative(n)
                },
            ),
            None => Err(index_error("axis"@, index)),
        }
    } else {
        Err("invalid controller input string: '"@ + l + "'"@)
    }
}

/// The decimal digit character of a value below 10.
pub open spec fn digit_char(d: int) -> char {
    (0x30 + d) as char
}

/// A byte written in decimal, without leading zeros.
pub open spec fn decimal_string(n: u8) -> Seq<char> {
    if n < 10 {
        seq![digit_char(n as int)]
    } else if n < 100 {
        seq![digit_char((n / 10) as int), digit_char((n % 10) as int)]
    } else {
        seq![digit_char((n / 100) as int), digit_char(((n / 10) % 10) as int), digit_char((n % 10) as int)]
    }
}

/// The one-character string of a decimal digit.
fn digit_str(d: u8) -> (r: &'static str)
    requires
        d < 10,
    ensures
        r@ == seq![digit_char(d as int)],
{
    proof {
        reveal_strlit("0");
        reveal_strlit("1");
        reveal_strlit("2");
        reveal_strlit("3");
        reveal_strlit("4");
        reveal_strlit("5");
        reveal_strlit("6");
        reveal_strlit("7");
        reveal_strlit("8");
        reveal_strlit("9");
    }
    let r = match d {
        0 => "0",
        1 => "1",
        2 => "2",
        3 => "3",
        4 => "4",
        5 => "5",
        6 => "6",
        7 => "7",
        8 => "8",
        _ => "9",
    };
    assert(r@ =~= seq![digit_char(d as int)]);
    r
}

/// Append the decimal form of a byte.
fn append_decimal(out: &mut String, n: u8)
    ensures
        final(out)@ == old(out)@ + decimal_string(n),
{
    if n >= 100 {
        out.append(digit_str(n / 100));
    }
    if n >= 10 {
        out.append(digit_str((n / 10) % 10));
    }
    out.append(digit_str(n % 10));
    assert(final(out)@ =~= old(out)@ + decimal_string(n));
}

impl ControllerInput {
    /// How an input is written: "Button N", "Axis N -" or "Axis N +".
    pub open spec fn spec_display(self) -> Seq<char> {
        match self {
            ControllerInput::Button(button) => "Button "@ + decimal_string(button),
            ControllerInput::AxisNegative(axis) => "Axis "@ + decimal_string(axis) + " -"@,
            ControllerInput::AxisPositive(axis) => "Axis "@ + decimal_string(axis) + " +"@,
        }
    }

    /// The input written out, as accepted by `parse`.
    pub fn to_display_string(&self) -> (r: String)
        ensures
            r@ == self.spec_display(),
    {
        match *self {
            Self::Button(button) => {
                let mut r = String::from_str("Button ");
                append_decimal(&mut r, button);
                r
            },
            Self::AxisNegative(axis) => {
                let mut r = String::from_str("Axis ");
                append_decimal(&mut r, axis);
                r.append(" -");
                r
            },
            Self::AxisPositive(axis) => {
                let mut r = String::from_str("Axis ");
                append_decimal(&mut r, axis);
                r.append(" +");
                r
            },
        }
    }

    /// Parse a gamepad input string (see [`spec_parse_controller_input`]).
    pub fn parse(s: &str) -> (r: Result<ControllerInput, String>)
        ensures
            match spec_parse_controller_input(s@) {
                Ok(input) => r == Ok::<ControllerInput, String>(input),
                Err(message) => r matches Err(e) && e@ == message,
            },
    {
        proof {
            reveal_strlit("button ");
            reveal_strlit("axis ");
        }
        let lowered = to_ascii_lowercase(s);
        let l = lowered.as_str();
        let len = l.unicode_len();
        if len >= 7 && has_prefix(l, "button ") && no_space_between(l, 7, len) {
            let index = l.substring_char(7, len);
            match parse_u8(index) {
                Some(n) => Ok(Self::Button(n)),
                None => {
                    let mut message = String::from_str("invalid ");
                    message.append("button");
                    message.append(" index: '");
                    message.append(index);
                    message.append("'");
                    Err(message)
                },
            }
        } else if len >= 7 && has_prefix(l, "axis ") && l.get_char(len - 2) == ' ' && (l.get_char(
            len - 1,
        ) == '+' || l.get_char(len - 1) == '-') && no_space_between(l, 5, len - 2) {
            let index = l.substring_char(5, len - 2);
            match parse_u8(index) {
                Some(n) => if l.get_char(len - 1) == '+' {
                    Ok(Self::AxisPositive(n))
                } else {
                    Ok(Self::AxisNegative(n))
                },
                None => {
                    let mut message = String::from_str("invalid ");
                    message.append("axis");
                    message.append(" index: '");
                    message.append(index);
                    message.append("'");
                    Err(message)
                },
            }
        } else {
            let mut message = String::from_str("invalid controller input string: '");
            message.append(l);
            message.append("'");
            Err(message)
        }
    }
}

/// Gamepad inputs for the eight Game Boy buttons, the axis deadzone and whether rumble is used.
#[derive(Debug, Clone, Copy, PartialEq, Eq, Structural)]
pub struct ControllerConfig {
    pub up: Option<ControllerInput>,
    pub down: Option<ControllerInput>,
    pub left: Option<ControllerInput>,
    pub right: Option<ControllerInput>,
    pub a: Option<ControllerInput>,
    pub b: Option<ControllerInput>,
    pub start: Option<ControllerInput>,
    pub select: Option<ControllerInput>,
    pub axis_deadzone: u16,
    pub rumble_enabled: bool,
}

impl Default for ControllerConfig {
    /// No gamepad inputs bound, an axis deadzone of 5000 and rumble on.
    fn default() -> (r: Self)
        ensures
            r == (ControllerConfig {
                up: None,
                down: None,
                left: None,
                right: None,
                a: None,
                b: None,
                start: None,
                select: None,
                axis_deadzone: 5000,
                rumble_enabled: true,
            }),
    {
        Self {
            up: None,
            down: None,
            left: None,
            right: None,
            a: None,
            b: None,
            start: None,
            select: None,
            axis_deadzone: 5000,
            rumble_enabled: true,
        }
    }
}

/// The GB mode colour palette.
#[derive(Debug, Clone, Copy, PartialEq, Eq, Structural)]
pub enum ColorScheme {
    BlackAndWhite,
    GreenTint,
}

impl Default for ColorScheme {
    fn default() -> (r: Self)
        ensures
            r == ColorScheme::BlackAndWhite,
    {
        Self::BlackAndWhite
    }
}

/// The name of a colour scheme.
pub open spec fn color_scheme_name(scheme: ColorScheme) -> Seq<char> {
    match scheme {
        ColorScheme::BlackAndWhite => "BlackAndWhite"@,
        ColorScheme::GreenTint => "GreenTint"@,
    }
}

impl ColorScheme {
    /// The scheme's name, as accepted by `parse`.
    pub fn name(self) -> (r: String)
        ensures
            r@ == color_scheme_name(self),
    {
        match self {
            Self::BlackAndWhite => String::from_str("BlackAndWhite"),
            Self::GreenTint => String::from_str("GreenTint"),
        }
    }

    /// The scheme with the given name, or an error for any other string.
    pub fn parse(s: &str) -> (r: Result<Self, String>)
        ensures
            s@ == "BlackAndWhite"@ ==> r == Ok::<Self, String>(ColorScheme::BlackAndWhite),
            s@ == "GreenTint"@ ==> r == Ok::<Self, String>(ColorScheme::GreenTint),
            s@ != "BlackAndWhite"@ && s@ != "GreenTint"@ ==> (r matches Err(e) && e@
                == "invalid ColorScheme string: '"@ + s@ + "'"@),
    {
        proof {
            reveal_strlit("BlackAndWhite");
            reveal_strlit("GreenTint");
            assert("BlackAndWhite"@.len() != "GreenTint"@.len());
        }
        if str_equals(s, "BlackAndWhite") {
            Ok(Self::BlackAndWhite)
        } else if str_equals(s, "GreenTint") {
            Ok(Self::GreenTint)
        } else {
            let mut message = String::from_str("invalid ColorScheme string: '");
            message.append(s);
            message.append("'");
            Err(message)
        }
    }
}

/// Whether two strings hold the same characters, compared byte by byte.
fn str_equals(a: &str, b: &str) -> (r: bool)
    ensures
        r == (a@ == b@),
{
    let a_bytes = a.as_bytes();
    let b_bytes = b.as_bytes();
    proof {
        vstd::utf8::encode_utf8_decode_utf8(a@);
        vstd::utf8::encode_utf8_decode_utf8(b@);
    }
    assert(a_bytes@ == vstd::utf8::encode_utf8(a@));
    assert(b_bytes@ == vstd::utf8::encode_utf8(b@));
    if a_bytes.len() != b_bytes.len() {
        return false;
    }
    let mut i: usize = 0;
    while i < a_bytes.len()
        invariant
            a_bytes@ == vstd::utf8::encode_utf8(a@),
            b_bytes@ == vstd::utf8::encode_utf8(b@),
            a_bytes@.len() == b_bytes@.len(),
            i <= a_bytes@.len(),
            forall|j: int| 0 <= j < i ==> a_bytes@[j] == b_bytes@[j],
        decreases a_bytes@.len() - i,
    {
        if a_bytes[i] != b_bytes[i] {
            return false;
        }
        i += 1;
    }
    assert(a_bytes@ =~= b_bytes@);
    assert(vstd::utf8::decode_utf8(vstd::utf8::encode_utf8(a@)) == vstd::utf8::decode_utf8(
        vstd::utf8::encode_utf8(b@),
    ));
    true
}

/// Everything the emulator is started with.
#[derive(Debug, Clone)]
pub struct RunConfig {
    pub gb_file_path: String,
    pub audio_enabled: bool,
    pub sync_to_audio: bool,
    pub vsync_enabled: bool,
    pub launch_fullscreen: bool,
    pub borderless_fullscreen: bool,
    pub force_integer_scaling: bool,
    pub window_width: u32,
    pub window_height: u32,
    pub audio_debugging_enabled: bool,
    pub audio_60hz: bool,
    pub color_scheme: ColorScheme,
    pub input_config: InputConfig,
    pub hotkey_config: HotkeyConfig,
    pub controller_config: ControllerConfig,
}

/// Every colour scheme has its own name, so `parse` of a scheme's name gives back that scheme.
pub proof fn law_color_scheme_names_distinct(a: ColorScheme, b: ColorScheme)
    ensures
        color_scheme_name(a) == color_scheme_name(b) <==> a == b,
{
    reveal_strlit("BlackAndWhite");
    reveal_strlit("GreenTint");
    assert("BlackAndWhite"@.len() != "GreenTint"@.len());
}

/// A number written in decimal, without leading zeros.
pub open spec fn decimal_text(n: nat) -> Seq<char>
    decreases n,
{
    if n < 10 {
        seq![digit_char(n as int)]
    } else {
        decimal_text(n / 10) + seq![digit_char((n % 10) as int)]
    }
}

/// Append the decimal form of a number.
fn append_decimal_u32(out: &mut String, n: u32)
    ensures
        final(out)@ == old(out)@ + decimal_text(n as nat),
    decreases n,
{
    if n >= 10 {
        append_decimal_u32(out, n / 10);
    }
    out.append(digit_str((n % 10) as u8));
    assert(final(out)@ =~= old(out)@ + decimal_text(n as nat));
}

/// An optional key name as shown: the name, or "<None>".
pub open spec fn option_text(s: Option<String>) -> Seq<char> {
    match s {
        Some(v) => v@,
        None => "<None>"@,
    }
}

fn append_option(out: &mut String, s: &Option<String>)
    ensures
        final(out)@ == old(out)@ + option_text(*s),
{
    match s {
        Some(v) => out.append(v.as_str()),
        None => out.append("<None>"),
    }
}

/// An optional gamepad input as shown: the input, or "<None>".
pub open spec fn input_option_text(input: Option<ControllerInput>) -> Seq<char> {
    match input {
        Some(i) => i.spec_display(),
        None => "<None>"@,
    }
}

fn append_input_option(out: &mut String, input: Option<ControllerInput>)
    ensures
        final(out)@ == old(out)@ + input_option_text(input),
{
    match input {
        Some(i) => {
            let text = i.to_display_string();
            out.append(text.as_str());
        },
        None => out.append("<None>"),
    }
}

/// A flag as shown: "true" or "false".
pub open spec fn bool_text(b: bool) -> Seq<char> {
    if b {
        "true"@
    } else {
        "false"@
    }
}

fn append_bool(out: &mut String, b: bool)
    ensures
        final(out)@ == old(out)@ + bool_text(b),
{
    if b {
        out.append("true");
    } else {
        out.append("false");
    }
}

impl InputConfig {
    /// The key bindings as shown in logs.
    pub open spec fn spec_display(self) -> Seq<char> {
        "Up="@ + self.up@ + ", Down="@ + self.down@ + ", Left="@ + self.left@ + ", Right="@
            + self.right@ + ", A="@ + self.a@ + ", B="@ + self.b@ + ", Start="@ + self.start@
            + ", Select="@ + self.select@
    }

    pub fn to_display_string(&self) -> (r: String)
        ensures
            r@ == self.spec_display(),
    {
        let mut r = String::from_str("Up=");
        r.append(self.up.as_str());
        r.append(", Down=");
        r.append(self.down.as_str());
        r.append(", Left=");
        r.append(self.left.as_str());
        r.append(", Right=");
        r.append(self.right.as_str());
        r.append(", A=");
        r.append(self.a.as_str());
        r.append(", B=");
        r.append(self.b.as_str());
        r.append(", Start=");
        r.append(self.start.as_str());
        r.append(", Select=");
        r.append(self.select.as_str());
        r
    }
}

impl HotkeyConfig {
    /// The hotkeys as shown in logs.
    pub open spec fn spec_display(self) -> Seq<char> {
        "Exit="@ + option_text(self.exit) + ", ToggleFullscreen="@ + option_text(
            self.toggle_fullscreen,
        ) + ", SaveState="@ + option_text(self.save_state) + ", LoadState="@ + option_text(
            self.load_state,
        ) + ", FastForward="@ + option_text(self.fast_forward)
    }

    pub fn to_display_string(&self) -> (r: String)
        ensures
            r@ == self.spec_display(),
    {
        let mut r = String::from_str("Exit=");
        append_option(&mut r, &self.exit);
        r.append(", ToggleFullscreen=");
        append_option(&mut r, &self.toggle_fullscreen);
        r.append(", SaveState=");
        append_option(&mut r, &self.save_state);
        r.append(", LoadState=");
        append_option(&mut r, &self.load_state);
        r.append(", FastForward=");
        append_option(&mut r, &self.fast_forward);
        r
    }
}

impl ControllerConfig {
    /// The gamepad bindings and deadzone as shown in logs.
    pub open spec fn spec_display(self) -> Seq<char> {
        "Up="@ + input_option_text(self.up) + ", Down="@ + input_option_text(self.down)
            + ", Left="@ + input_option_text(self.left) + ", Right="@ + input_option_text(
            self.right,
        ) + ", A="@ + input_option_text(self.a) + ", B="@ + input_option_text(self.b)
            + ", Start="@ + input_option_text(self.start) + ", Select="@ + input_option_text(
            self.select,
        ) + ", Deadzone="@ + decimal_text(self.axis_deadzone as nat)
    }

    pub fn to_display_string(&self) -> (r: String)
        ensures
            r@ == self.spec_display(),
    {
        let mut r = String::from_str("Up=");
        append_input_option(&mut r, self.up);
        r.append(", Down=");
        append_input_option(&mut r, self.down);
        r.append(", Left=");
        append_input_option(&mut r, self.left);
        r.append(", Right=");
        append_input_option(&mut r, self.right);
        r.append(", A=");
        append_input_option(&mut r, self.a);
        r.append(", B=");
        append_input_option(&mut r, self.b);
        r.append(", Start=");
        append_input_option(&mut r, self.start);
        r.append(", Select=");
        append_input_option(&mut r, self.select);
        r.append(", Deadzone=");
        append_decimal_u32(&mut r, self.axis_deadzone as u32);
        r
    }
}

impl RunConfig {
    /// The run configuration as shown in logs, one "name: value" line per setting.
    pub open spec fn spec_display(self) -> Seq<char> {
        "gb_file_path: "@ + self.gb_file_path@ + "\naudio_enabled: "@ + bool_text(
            self.audio_enabled,
        ) + "\nsync_to_audio: "@ + bool_text(self.sync_to_audio) + "\nvsync_enabled: "@
            + bool_text(self.vsync_enabled) + "\nlaunch_fullscreen: "@ + bool_text(
            self.launch_fullscreen,
        ) + "\nborderless_fullscreen: "@ + bool_text(self.borderless_fullscreen)
            + "\nforce_integer_scaling: "@ + bool_text(self.force_integer_scaling)
            + "\nwindow_width: "@ + decimal_text(self.window_width as nat) + "\nwindow_height: "@
            + decimal_text(self.window_height as nat) + "\naudio_debugging_enabled: "@ + bool_text(
            self.audio_debugging_enabled,
        ) + "\naudio_60hz: "@ + bool_text(self.audio_60hz) + "\ncolor_scheme: "@
            + color_scheme_name(self.color_scheme) + "\ninput_config: "@
            + self.input_config.spec_display() + "\nhotkey_config: "@
            + self.hotkey_config.spec_display() + "\ncontroller_config: "@
            + self.controller_config.spec_display() + "\n"@
    }

    pub fn to_display_string(&self) -> (r: String)
        ensures
            r@ == self.spec_display(),
    {
        let mut r = String::from_str("gb_file_path: ");
        r.append(self.gb_file_path.as_str());
        r.append("\naudio_enabled: ");
        append_bool(&mut r, self.audio_enabled);
        r.append("\nsync_to_audio: ");
        append_bool(&mut r, self.sync_to_audio);
        r.append("\nvsync_enabled: ");
        append_bool(&mut r, self.vsync_enabled);
        r.append("\nlaunch_fullscreen: ");
        append_bool(&mut r, self.launch_fullscreen);
        r.append("\nborderless_fullscreen: ");
        append_bool(&mut r, self.borderless_fullscreen);
        r.append("\nforce_integer_scaling: ");
        append_bool(&mut r, self.force_integer_scaling);
        r.append("\nwindow_width: ");
        append_decimal_u32(&mut r, self.window_width);
        r.append("\nwindow_height: ");
        append_decimal_u32(&mut r, self.window_height);
        r.append("\naudio_debugging_enabled: ");
        append_bool(&mut r, self.audio_debugging_enabled);
        r.append("\naudio_60hz: ");
        append_bool(&mut r, self.audio_60hz);
        r.append("\ncolor_scheme: ");
        let scheme = self.color_scheme.name();
        r.append(scheme.as_str());
        r.append("\ninput_config: ");
        let input = self.input_config.to_display_string();
        r.append(input.as_str());
        r.append("\nhotkey_config: ");
        let hotkeys = self.hotkey_config.to_display_string();
        r.append(hotkeys.as_str());
        r.append("\ncontroller_config: ");
        let controller = self.controller_config.to_display_string();
        r.append(controller.as_str());
        r.append("\n");
        r
    }
}

/// The decimal form of a byte: one to three digits, unchanged by lowercasing, read back by
/// `spec_parse_u8` as the byte.
proof fn lemma_decimal_string(n: u8)
    ensures
        1 <= decimal_string(n).len() <= 3,
        forall|i: int| 0 <= i < decimal_string(n).len() ==> is_decimal_digit(#[trigger] decimal_string(n)[i]),
        no_space(decimal_string(n)),
        ascii_lowercase(decimal_string(n)) == decimal_string(n),
        spec_parse_u8(decimal_string(n)) == Some(n),
{
    let ds = decimal_string(n);
    reveal_with_fuel(decimal_value, 4);
    assert(ds[0] != '+');
    assert(ascii_lowercase(ds) =~= ds);
    if n < 10 {
        assert(ds.drop_last() =~= Seq::<char>::empty());
    } else if n < 100 {
        assert(ds.drop_last() =~= seq![digit_char((n / 10) as int)]);
        assert(ds.drop_last().drop_last() =~= Seq::<char>::empty());
    } else {
        assert(ds.drop_last() =~= seq![digit_char((n / 100) as int), digit_char(((n / 10) % 10) as int)]);
        assert(ds.drop_last().drop_last() =~= seq![digit_char((n / 100) as int)]);
        assert(ds.drop_last().drop_last().drop_last() =~= Seq::<char>::empty());
    }
}

/// Writing a gamepad input out and parsing the text back gives the same input.
pub proof fn law_controller_input_display_parse(input: ControllerInput)
    ensures
        spec_parse_controller_input(input.spec_display()) == Ok::<ControllerInput, Seq<char>>(input),
{
    reveal_strlit("Button ");
    reveal_strlit("button ");
    reveal_strlit("Axis ");
    reveal_strlit("axis ");
    reveal_strlit(" -");
    reveal_strlit(" +");
    match input {
        ControllerInput::Button(n) => {
            let ds = decimal_string(n);
            lemma_decimal_string(n);
            let l = ascii_lowercase(input.spec_display());
            assert(l =~= "button "@ + ds);
            assert(l.subrange(0, 7) =~= "button "@);
            assert(l.subrange(7, l.len() as int) =~= ds);
        },
        ControllerInput::AxisNegative(n) => {
            let ds = decimal_string(n);
            lemma_decimal_string(n);
            let l = ascii_lowercase(input.spec_display());
            assert(l =~= "axis "@ + ds + " -"@);
            assert(l.subrange(0, 5) =~= "axis "@);
            assert(l.subrange(0, 7) != "button "@) by {
                assert(l.subrange(0, 7)[0] != "button "@[0]);
            }
            assert(l.subrange(5, l.len() - 2) =~= ds);
        },
        ControllerInput::AxisPositive(n) => {
            let ds = decimal_string(n);
            lemma_decimal_string(n);
            let l = ascii_lowercase(input.spec_display());
            assert(l =~= "axis "@ + ds + " +"@);
            assert(l.subrange(0, 5) =~= "axis "@);
            assert(l.subrange(0, 7) != "button "@) by {
                assert(l.subrange(0, 7)[0] != "button "@[0]);
            }
            assert(l.subrange(5, l.len() - 2) =~= ds);
        },
    }
}

} // verus!
