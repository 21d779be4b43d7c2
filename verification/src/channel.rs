//! Colour channels as the typesetter reads them.
//!
//! A colour model of the typesetter takes each channel as a decimal number
//! from 0 to 1. A channel `c` of 0 to 255 stands for `c / 255`. The number
//! that is written is that quotient as single precision holds it, with the
//! fewest digits that tell it apart from its neighbours there; it lies
//! within a tenth of a millionth of the quotient. The 256 numbers are laid
//! down once, in billionths, and written out in decimal notation without
//! trailing zeros.

use vstd::prelude::*;
use vstd::string::*;
use crate::text::push_char;

verus! {

/// A billion: the table holds billionths.
pub const BILLION: u32 = 1_000_000_000;

/// How many decimal places a billionth takes.
pub const PLACES: u8 = 9;

/// For each channel value `c`, the number written for `c / 255`, in billionths.
pub const CHANNEL_BILLIONTHS: [u32; 256] = [
    0, 3921569, 7843138, 11764706, 15686275, 19607844,
    23529412, 27450980, 31372550, 35294120, 39215688, 43137256,
    47058824, 50980393, 54901960, 58823530, 62745100, 66666670,
    70588240, 74509810, 78431375, 82352940, 86274510, 90196080,
    94117650, 98039220, 101960786, 105882354, 109803920, 113725490,
    117647060, 121568630, 125490200, 129411770, 133333340, 137254910,
    141176480, 145098050, 149019610, 152941180, 156862750, 160784320,
    164705890, 168627460, 172549020, 176470600, 180392160, 184313730,
    188235300, 192156870, 196078430, 200000000, 203921570, 207843140,
    211764710, 215686280, 219607840, 223529410, 227450980, 231372550,
    235294120, 239215690, 243137260, 247058820, 250980400, 254901980,
    258823540, 262745100, 266666680, 270588250, 274509820, 278431400,
    282352950, 286274520, 290196100, 294117660, 298039230, 301960800,
    305882360, 309803930, 313725500, 317647070, 321568640, 325490200,
    329411770, 333333340, 337254900, 341176480, 345098050, 349019620,
    352941200, 356862750, 360784320, 364705900, 368627460, 372549030,
    376470600, 380392160, 384313730, 388235300, 392156870, 396078440,
    400000000, 403921570, 407843140, 411764700, 415686280, 419607850,
    423529420, 427450980, 431372550, 435294120, 439215700, 443137260,
    447058830, 450980400, 454901960, 458823530, 462745100, 466666670,
    470588240, 474509800, 478431370, 482352940, 486274500, 490196080,
    494117650, 498039220, 501960800, 505882400, 509803950, 513725500,
    517647100, 521568660, 525490200, 529411800, 533333360, 537254900,
    541176500, 545098070, 549019630, 552941200, 556862800, 560784340,
    564705900, 568627500, 572549050, 576470600, 580392200, 584313750,
    588235300, 592156900, 596078460, 600000000, 603921600, 607843160,
    611764700, 615686300, 619607870, 623529430, 627451000, 631372600,
    635294140, 639215700, 643137300, 647058840, 650980400, 654902000,
    658823550, 662745100, 666666700, 670588250, 674509800, 678431400,
    682352960, 686274500, 690196100, 694117670, 698039230, 701960800,
    705882400, 709803940, 713725500, 717647100, 721568640, 725490200,
    729411800, 733333350, 737254900, 741176500, 745098050, 749019600,
    752941200, 756862760, 760784300, 764705900, 768627460, 772549030,
    776470600, 780392170, 784313740, 788235300, 792156900, 796078440,
    800000000, 803921600, 807843150, 811764700, 815686300, 819607850,
    823529400, 827451000, 831372560, 835294100, 839215700, 843137260,
    847058830, 850980400, 854901970, 858823540, 862745100, 866666700,
    870588240, 874509800, 878431400, 882352950, 886274500, 890196100,
    894117650, 898039200, 901960800, 905882360, 909803900, 913725500,
    917647060, 921568630, 925490200, 929411770, 933333340, 937254900,
    941176500, 945098040, 949019600, 952941200, 956862750, 960784300,
    964705900, 968627450, 972549000, 976470600, 980392160, 984313700,
    988235300, 992156860, 996078430, 1000000000,
];

/// The number written for channel value `c`, in billionths.
pub open spec fn channel_billionths(c: u8) -> u32 {
    CHANNEL_BILLIONTHS[c as int]
}

/// The character for a digit.
pub open spec fn digit_char(d: nat) -> char
    recommends
        d < 10,
{
    (48 + d) as u8 as char
}

/// The number `n` below ten to the `places`, written with exactly `places`
/// digits, zeros in front where it is short.
pub open spec fn fraction_text(n: nat, places: nat) -> Seq<char>
    decreases places,
{
    if places == 0 {
        Seq::empty()
    } else {
        fraction_text(n / 10, (places - 1) as nat).push(digit_char(n % 10))
    }
}

/// A number of `places` decimal places without its trailing zeros: the
/// number that is left, and the places that it takes.
pub open spec fn shortened(n: nat, places: nat) -> (nat, nat)
    decreases places,
{
    if places > 0 && n % 10 == 0 {
        shortened(n / 10, (places - 1) as nat)
    } else {
        (n, places)
    }
}

/// A number from 0 to 1 given in billionths, in decimal notation without
/// trailing zeros. Whatever is above a billion counts as 1.
pub open spec fn billionths_text(b: nat) -> Seq<char> {
    if b == 0 {
        "0"@
    } else if b >= BILLION {
        "1"@
    } else {
        "0."@ + fraction_text(shortened(b, PLACES as nat).0, shortened(b, PLACES as nat).1)
    }
}

/// The decimal literal for channel value `c`, that is for `c / 255`.
pub open spec fn channel_text(c: u8) -> Seq<char> {
    billionths_text(channel_billionths(c) as nat)
}

/// Ten to the `n`.
pub open spec fn pow10(n: nat) -> nat
    decreases n,
{
    if n == 0 {
        1
    } else {
        10 * pow10((n - 1) as nat)
    }
}

/// Dropping trailing zeros keeps the number: what is left, with the zeros
/// put back, is the number; and what is left ends in no zero, unless it
/// takes no place at all.
pub proof fn lemma_shortened(n: nat, places: nat)
    ensures
        shortened(n, places).1 <= places,
        shortened(n, places).0 * pow10((places - shortened(n, places).1) as nat) == n,
        shortened(n, places).1 > 0 ==> shortened(n, places).0 % 10 != 0,
    decreases places,
{
    if places > 0 && n % 10 == 0 {
        let (m, p) = shortened(n / 10, (places - 1) as nat);
        lemma_shortened(n / 10, (places - 1) as nat);
        let k = (places - 1 - p) as nat;
        assert(p <= places - 1);
        assert(pow10((places - p) as nat) == 10 * pow10(k));
        assert(m * (10 * pow10(k)) == 10 * (m * pow10(k))) by (nonlinear_arith);
        assert(m * pow10(k) == n / 10);
        assert(n == 10 * (n / 10));
    } else {
        assert(pow10(0) == 1);
        assert(n * 1 == n);
    }
}

/// The number written for a channel lies within a tenth of a millionth of
/// the channel's share of 255.
pub proof fn lemma_channel_is_near(c: u8)
    ensures
        -25500 <= 255 * channel_billionths(c) - BILLION * c <= 25500,
        channel_billionths(c) <= BILLION,
{
}

/// A larger channel value gets a larger number.
pub proof fn lemma_channels_grow(low: u8, high: u8)
    requires
        low < high,
    ensures
        channel_billionths(low) < channel_billionths(high),
{
    lemma_channel_is_near(low);
    lemma_channel_is_near(high);
}

/// The ends of the scale are written exactly: 0 for none, 1 for all.
pub proof fn lemma_channel_ends()
    ensures
        channel_text(0) == "0"@,
        channel_text(255) == "1"@,
{
}

/// Gives the character for a digit.
pub fn digit(d: u8) -> (r: char)
    requires
        d < 10,
    ensures
        r == digit_char(d as nat),
{
    (48 + d) as char
}

/// Writes a number from 0 to 1 given in billionths, in decimal notation
/// without trailing zeros. Whatever is above a billion is written as 1.
pub fn write_billionths(b: u32) -> (r: String)
    ensures
        r@ == billionths_text(b as nat),
{
    if b == 0 {
        return String::from_str("0");
    }
    if b >= BILLION {
        return String::from_str("1");
    }
    let mut n: u32 = b;
    let mut places: u8 = PLACES;
    while places > 0 && n % 10 == 0
        invariant
            places <= PLACES,
            shortened(n as nat, places as nat) == shortened(b as nat, PLACES as nat),
        decreases places,
    {
        n = n / 10;
        places = places - 1;
    }
    let ghost whole = fraction_text(n as nat, places as nat);
    // The digits are found from the last to the first.
    let mut digits: Vec<char> = Vec::new();
    let mut i: u8 = 0;
    while i < places
        invariant
            i <= places,
            digits.len() == i,
        decreases places - i,
    {
        digits.push('0');
        i = i + 1;
    }
    let mut m: u32 = n;
    let mut k: u8 = places;
    while k > 0
        invariant
            k <= places,
            digits.len() == places,
            whole == fraction_text(m as nat, k as nat) + digits@.subrange(k as int, places as int),
        decreases k,
    {
        let ghost before = digits@;
        let d = (m % 10) as u8;
        digits.set((k - 1) as usize, digit(d));
        proof {
            let front = fraction_text((m / 10) as nat, (k - 1) as nat);
            assert(fraction_text(m as nat, k as nat) == front.push(digit_char((m % 10) as nat)));
            assert(digits@.subrange(k as int, places as int) =~= before.subrange(
                k as int,
                places as int,
            ));
            assert(front + digits@.subrange(k - 1, places as int) =~= front.push(
                digit_char((m % 10) as nat),
            ) + before.subrange(k as int, places as int));
        }
        m = m / 10;
        k = k - 1;
    }
    proof {
        assert(fraction_text(m as nat, 0) =~= Seq::<char>::empty());
        assert(digits@.subrange(0, places as int) =~= digits@);
        assert(whole =~= digits@);
    }
    let mut out = String::from_str("0.");
    let mut j: usize = 0;
    while j < digits.len()
        invariant
            j <= digits.len(),
            out@ == "0."@ + digits@.take(j as int),
        decreases digits.len() - j,
    {
        push_char(&mut out, digits[j]);
        proof {
            assert(digits@.take(j + 1) =~= digits@.take(j as int).push(digits@[j as int]));
        }
        j += 1;
    }
    proof {
        assert(digits@.take(digits.len() as int) =~= digits@);
    }
    out
}

/// Writes the decimal literal for a channel value.
pub fn channel_literal(c: u8) -> (r: String)
    ensures
        r@ == channel_text(c),
{
    write_billionths(CHANNEL_BILLIONTHS[c as usize])
}

} // verus!
