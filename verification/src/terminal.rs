//! ANSI terminal text styling.
//!
//! An [`AnsiColor`] is one code of the 256-color palette, a [`TextBlueprint`]
//! collects a foreground color, a background color and a list of effects, and
//! renders them as one ANSI escape sequence: `ESC [`, the parts joined by
//! semicolons, then `m`.

use vstd::prelude::*;

verus! {

/// The colors that you can use for the TextBlueprint.
#[derive(Debug, Clone, Copy)]
pub struct AnsiColor {
    code: u8,
}

impl AnsiColor {
    /// The palette code this color stands for.
    pub closed spec fn spec_code(self) -> u8 {
        self.code
    }

    /// Wraps a raw palette code.
    pub fn from_code(code: u8) -> (r: Self)
        ensures
            r.spec_code() == code,
    {
        AnsiColor { code }
    }

    /// The color of the 6x6x6 cube at the given coordinates; `None` when a
    /// coordinate is out of the cube.
    pub fn from_rgb_cube(r: u8, g: u8, b: u8) -> (res: Option<Self>)
        ensures
            res is Some <==> r < 6 && g < 6 && b < 6,
            res matches Some(c) ==> c.spec_code() == 16 + r * 36 + g * 6 + b,
    {
        if r < 6 && g < 6 && b < 6 {
            Some(AnsiColor { code: 16 + (r * 36 + g * 6 + b) })
        } else {
            None
        }
    }

    /// The gray-scale ramp color of the given brightness; `None` when the
    /// value is past the 24 gray levels.
    pub fn from_gray_value(value: u8) -> (res: Option<Self>)
        ensures
            res is Some <==> value < 24,
            res matches Some(c) ==> c.spec_code() == 232 + value,
    {
        if value < 24 {
            Some(AnsiColor { code: 232 + value })
        } else {
            None
        }
    }

    fn get_code(&self) -> (r: u8)
        ensures
            r == self.spec_code(),
    {
        self.code
    }
}

/// The effects that you can use for the TextBlueprint.
#[derive(Debug, Clone, Copy)]
pub enum AnsiEffect {
    Bold,
    Italics,
    Underline,
    Strikethrough,
    DoubleUnderline,
}

/// The ANSI code of an effect.
pub open spec fn effect_code(e: AnsiEffect) -> u8 {
    match e {
        AnsiEffect::Bold => 1,
        AnsiEffect::Italics => 3,
        AnsiEffect::Underline => 4,
        AnsiEffect::Strikethrough => 9,
        AnsiEffect::DoubleUnderline => 21,
    }
}

impl AnsiEffect {
    /// The ANSI code of this effect.
    pub fn code(&self) -> (r: u8)
        ensures
            r == effect_code(*self),
    {
        match self {
            AnsiEffect::Bold => 1,
            AnsiEffect::Italics => 3,
            AnsiEffect::Underline => 4,
            AnsiEffect::Strikethrough => 9,
            AnsiEffect::DoubleUnderline => 21,
        }
    }
}

/// The character of a single decimal digit.
pub open spec fn digit_char(d: int) -> char {
    if d == 0 {
        '0'
    } else if d == 1 {
        '1'
    } else if d == 2 {
        '2'
    } else if d == 3 {
        '3'
    } else if d == 4 {
        '4'
    } else if d == 5 {
        '5'
    } else if d == 6 {
        '6'
    } else if d == 7 {
        '7'
    } else if d == 8 {
        '8'
    } else {
        '9'
    }
}

/// The decimal representation of a non-negative number, most significant
/// digit first, without leading zeros.
pub open spec fn dec_digits(n: int) -> Seq<char>
    decreases n,
{
    if n < 10 {
        seq![digit_char(n)]
    } else {
        dec_digits(n / 10).push(digit_char(n % 10))
    }
}

/// Relies on String::push: appends the given character to the end of the
/// string.
#[verifier::external_body]
pub(crate) fn push_char(s: &mut String, c: char)
    ensures
        final(s)@ == old(s)@.push(c),
{
    s.push(c);
}

pub(crate) fn digit_to_char(d: u8) -> (c: char)
    requires
        d < 10,
    ensures
        c == digit_char(d as int),
{
    if d == 0 {
        '0'
    } else if d == 1 {
        '1'
    } else if d == 2 {
        '2'
    } else if d == 3 {
        '3'
    } else if d == 4 {
        '4'
    } else if d == 5 {
        '5'
    } else if d == 6 {
        '6'
    } else if d == 7 {
        '7'
    } else if d == 8 {
        '8'
    } else {
        '9'
    }
}

/// The decimal rendering of a number.
pub(crate) fn num_to_string(n: usize) -> (s: String)
    ensures
        s@ == dec_digits(n as int),
    decreases n,
{
    if n < 10 {
        let mut s = String::new();
        push_char(&mut s, digit_to_char(n as u8));
        proof {
            assert(s@ =~= seq![digit_char(n as int)]);
        }
        s
    } else {
        let mut s = num_to_string(n / 10);
        push_char(&mut s, digit_to_char((n % 10) as u8));
        s
    }
}

/// Blueprint to color and fancify your text!
#[derive(Debug, Clone)]
pub struct TextBlueprint {
    text_color: Option<AnsiColor>,
    background_color: Option<AnsiColor>,
    effects: Vec<AnsiEffect>,
}

/// A foreground or background color part of the escape body: the prefix, the
/// decimal color code, and a closing semicolon. An absent color contributes
/// nothing.
pub open spec fn color_part(prefix: Seq<char>, c: Option<AnsiColor>) -> Seq<char> {
    match c {
        Some(col) => prefix + dec_digits(col.spec_code() as int) + seq![';'],
        None => Seq::empty(),
    }
}

/// The effect parts of the escape body: each effect's decimal code with a
/// closing semicolon, in order.
pub open spec fn effects_part(es: Seq<AnsiEffect>) -> Seq<char>
    decreases es.len(),
{
    if es.len() == 0 {
        Seq::empty()
    } else {
        effects_part(es.drop_last()) + dec_digits(effect_code(es.last()) as int) + seq![';']
    }
}

/// A sequence without its trailing character, or unchanged when empty.
pub open spec fn trim_last(s: Seq<char>) -> Seq<char> {
    if s.len() > 0 {
        s.drop_last()
    } else {
        s
    }
}

impl TextBlueprint {
    /// The foreground color, if one was set.
    pub closed spec fn spec_text_color(self) -> Option<AnsiColor> {
        self.text_color
    }

    /// The background color, if one was set.
    pub closed spec fn spec_background_color(self) -> Option<AnsiColor> {
        self.background_color
    }

    /// The effects, in the order they were added.
    pub closed spec fn spec_effects(self) -> Seq<AnsiEffect> {
        self.effects@
    }

    /// The body of the escape sequence: color parts then effect parts, each
    /// ending in a semicolon.
    pub open spec fn ansi_body(self) -> Seq<char> {
        color_part("38;5;"@, self.spec_text_color())
            + color_part("48;5;"@, self.spec_background_color()) + effects_part(self.spec_effects())
    }

    /// The full escape sequence: `ESC [`, the body without its trailing
    /// semicolon, and `m`.
    pub open spec fn ansi_spec(self) -> Seq<char> {
        "\x1B["@ + trim_last(self.ansi_body()) + "m"@
    }

    /// A blueprint with no colors and no effects.
    pub fn new() -> (r: Self)
        ensures
            r.spec_text_color() is None,
            r.spec_background_color() is None,
            r.spec_effects() == Seq::<AnsiEffect>::empty(),
    {
        let r = TextBlueprint { text_color: None, background_color: None, effects: Vec::new() };
        proof {
            assert(r.spec_effects() =~= Seq::<AnsiEffect>::empty());
        }
        r
    }

    /// The same blueprint with the given foreground color.
    pub fn with_text_color(self, color: AnsiColor) -> (r: Self)
        ensures
            r.spec_text_color() == Some(color),
            r.spec_background_color() == self.spec_background_color(),
            r.spec_effects() == self.spec_effects(),
    {
        TextBlueprint { text_color: Some(color), ..self }
    }

    /// The same blueprint with the given background color.
    pub fn with_background_color(self, color: AnsiColor) -> (r: Self)
        ensures
            r.spec_background_color() == Some(color),
            r.spec_text_color() == self.spec_text_color(),
            r.spec_effects() == self.spec_effects(),
    {
        TextBlueprint { background_color: Some(color), ..self }
    }

    /// The same blueprint with the given effect appended.
    pub fn with_effect(self, effect: AnsiEffect) -> (r: Self)
        ensures
            r.spec_effects() == self.spec_effects().push(effect),
            r.spec_text_color() == self.spec_text_color(),
            r.spec_background_color() == self.spec_background_color(),
    {
        let mut r = self;
        r.effects.push(effect);
        r
    }

    /// The same blueprint with all the given effects appended, in order.
    pub fn with_effects(self, effects: &Vec<AnsiEffect>) -> (r: Self)
        ensures
            r.spec_effects() == self.spec_effects() + effects@,
            r.spec_text_color() == self.spec_text_color(),
            r.spec_background_color() == self.spec_background_color(),
    {
        let mut r = self;
        let n = effects.len();
        let mut i: usize = 0;
        while i < n
            invariant
                i <= n,
                n == effects@.len(),
                r.spec_effects() == self.spec_effects() + effects@.take(i as int),
                r.spec_text_color() == self.spec_text_color(),
                r.spec_background_color() == self.spec_background_color(),
            decreases n - i,
        {
            r.effects.push(effects[i]);
            proof {
                assert(self.spec_effects() + effects@.take(i as int + 1)
                    =~= (self.spec_effects() + effects@.take(i as int)).push(effects@[i as int]));
            }
            i = i + 1;
        }
        proof {
            assert(effects@.take(n as int) =~= effects@);
        }
        r
    }

    /// The escape sequence that clears all styling.
    pub fn reset() -> (r: String)
        ensures
            r@ == "\x1B[0m"@,
    {
        String::from_str("\x1B[0m")
    }

    /// Renders the blueprint as its ANSI escape sequence.
    pub fn get_ansi(&self) -> (r: String)
        ensures
            r@ == self.ansi_spec(),
    {
        let mut ansi = String::from_str("\x1B[");
        let mut any = false;
        let ghost esc = "\x1B["@;
        let ghost body0 = color_part("38;5;"@, self.spec_text_color());
        if let Some(color) = self.text_color {
            ansi.append("38;5;");
            let d = num_to_string(color.get_code() as usize);
            ansi.append(d.as_str());
            any = true;
            proof {
                assert(ansi@ =~= esc + trim_last(body0));
                assert(body0.len() > 0 && body0.last() == ';');
            }
        }
        proof {
            assert(ansi@ == esc + trim_last(body0));
            assert(any == (body0.len() > 0));
            assert(body0.len() > 0 ==> body0.last() == ';');
        }
        let ghost body1 = body0 + color_part("48;5;"@, self.spec_background_color());
        if let Some(color) = self.background_color {
            if any {
                ansi.append(";");
            }
            ansi.append("48;5;");
            let d = num_to_string(color.get_code() as usize);
            ansi.append(d.as_str());
            any = true;
            proof {
                lemma_semi_view();
                lemma_trim_extend(body0, "48;5;"@ + dec_digits(color.spec_code() as int));
                assert(body1 =~= body0 + ("48;5;"@ + dec_digits(color.spec_code() as int)) + seq![';']);
                assert(ansi@ =~= esc + trim_last(body1));
            }
        }
        proof {
            assert(ansi@ == esc + trim_last(body1));
            assert(any == (body1.len() > 0));
            assert(body1.len() > 0 ==> body1.last() == ';');
        }
        let n = self.effects.len();
        let mut i: usize = 0;
        while i < n
            invariant
                i <= n,
                n == self.effects@.len(),
                ansi@ == esc + trim_last(body1 + effects_part(self.spec_effects().take(i as int))),
                any == ((body1 + effects_part(self.spec_effects().take(i as int))).len() > 0),
                (body1 + effects_part(self.spec_effects().take(i as int))).len() > 0
                    ==> (body1 + effects_part(self.spec_effects().take(i as int))).last() == ';',
            decreases n - i,
        {
            let ghost prev = body1 + effects_part(self.spec_effects().take(i as int));
            if any {
                ansi.append(";");
            }
            let d = num_to_string(self.effects[i].code() as usize);
            ansi.append(d.as_str());
            any = true;
            proof {
                lemma_semi_view();
                let piece = dec_digits(effect_code(self.spec_effects()[i as int]) as int);
                lemma_trim_extend(prev, piece);
                assert(self.spec_effects().take(i as int + 1).drop_last()
                    =~= self.spec_effects().take(i as int));
                assert(effects_part(self.spec_effects().take(i as int + 1))
                    == effects_part(self.spec_effects().take(i as int)) + piece + seq![';']);
                assert(body1 + effects_part(self.spec_effects().take(i as int + 1))
                    =~= prev + piece + seq![';']);
                assert(ansi@ =~= esc + trim_last(prev + piece + seq![';']));
            }
            i = i + 1;
        }
        ansi.append("m");
        proof {
            assert(self.spec_effects().take(n as int) =~= self.spec_effects());
            assert(ansi@ =~= self.ansi_spec());
        }
        ansi
    }

    /// Wraps the given text in this blueprint's escape sequence and the
    /// resetting one.
    pub fn apply(&self, text: &str) -> (r: String)
        ensures
            r@ == self.ansi_spec() + text@ + "\x1B[0m"@,
    {
        let mut colored_string = self.get_ansi();
        colored_string.append(text);
        let reset = Self::reset();
        colored_string.append(reset.as_str());
        colored_string
    }
}

/// The escape sequence of a blueprint that sets a foreground color and
/// nothing else: the body is that one part, and trimming drops exactly its
/// closing semicolon.
pub proof fn lemma_text_color_only_ansi(bp: TextBlueprint, code: u8)
    requires
        bp.spec_text_color() matches Some(c) && c.spec_code() == code,
        bp.spec_background_color() is None,
        bp.spec_effects() == Seq::<AnsiEffect>::empty(),
    ensures
        bp.ansi_spec() == "\x1B["@ + "38;5;"@ + dec_digits(code as int) + "m"@,
{
    let body = bp.ansi_body();
    let part = "38;5;"@ + dec_digits(code as int);
    assert(effects_part(bp.spec_effects()) == Seq::<char>::empty());
    assert(body =~= part + seq![';']);
    assert(trim_last(body) =~= part);
    assert("\x1B["@ + trim_last(body) + "m"@ =~= "\x1B["@ + "38;5;"@ + dec_digits(code as int)
        + "m"@);
}

proof fn lemma_semi_view()
    ensures
        ";"@ == seq![';'],
{
    reveal_strlit(";");
    assert(";"@ =~= seq![';']);
}

/// Extending a semicolon-terminated (or empty) body by one further
/// semicolon-terminated part moves the trimmed form ahead by a separating
/// semicolon and the part.
proof fn lemma_trim_extend(body: Seq<char>, piece: Seq<char>)
    requires
        body.len() > 0 ==> body.last() == ';',
    ensures
        trim_last(body + piece + seq![';']) == trim_last(body)
            + (if body.len() > 0 { seq![';'] } else { Seq::<char>::empty() }) + piece,
{
    assert((body + piece + seq![';']).drop_last() =~= body + piece);
    if body.len() > 0 {
        assert(body.drop_last() + seq![';'] =~= body);
        assert(trim_last(body) + seq![';'] + piece =~= body + piece);
    } else {
        assert(body + piece =~= piece);
        assert(trim_last(body) + Seq::<char>::empty() + piece =~= piece);
    }
}

} // verus!
