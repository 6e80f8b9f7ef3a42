use vstd::prelude::*;

verus! {

/// ASCII digits of `n` in base ten, most significant first, without leading zeros.
pub open spec fn decimal(n: nat) -> Seq<u8>
    decreases n,
{
    if n < 10 {
        seq![(48 + n) as u8]
    } else {
        decimal(n / 10).push((48 + n % 10) as u8)
    }
}

/// Header of a plain-text portable pixmap: magic `P3`, width, height and the
/// largest channel value 255, each on its own line.
pub open spec fn header_spec(width: nat, height: nat) -> Seq<u8> {
    seq![80u8, 51u8, 10u8] + decimal(width) + seq![32u8] + decimal(height) + seq![
        10u8,
        50u8,
        53u8,
        53u8,
        10u8,
    ]
}

/// One pixel of a plain-text pixmap: the three channels in decimal, separated
/// by spaces, ended by a newline.
pub open spec fn pixel_spec(r: nat, g: nat, b: nat) -> Seq<u8> {
    decimal(r) + seq![32u8] + decimal(g) + seq![32u8] + decimal(b) + seq![10u8]
}

/// Appends the decimal digits of `n` to `out`.
pub fn push_decimal(out: &mut Vec<u8>, n: u32)
    ensures
        final(out)@ == old(out)@ + decimal(n as nat),
    decreases n,
{
    if n >= 10 {
        push_decimal(out, n / 10);
    }
    out.push(48 + (n % 10) as u8);
    proof {
        if n < 10 {
            assert(decimal(n as nat) == seq![(48 + n) as u8]);
        }
    }
    assert(out@ == old(out)@ + decimal(n as nat));
}

/// The image header that precedes the pixel data.
pub fn header(width: u32, height: u32) -> (r: Vec<u8>)
    ensures
        r@ == header_spec(width as nat, height as nat),
{
    let mut out: Vec<u8> = Vec::new();
    out.push(80);
    out.push(51);
    out.push(10);
    push_decimal(&mut out, width);
    out.push(32);
    push_decimal(&mut out, height);
    out.push(10);
    out.push(50);
    out.push(53);
    out.push(53);
    out.push(10);
    assert(out@ =~= header_spec(width as nat, height as nat));
    out
}

/// The text of one pixel's three 8-bit channels.
pub fn pixel_text(r: u8, g: u8, b: u8) -> (t: Vec<u8>)
    ensures
        t@ == pixel_spec(r as nat, g as nat, b as nat),
{
    let mut out: Vec<u8> = Vec::new();
    push_decimal(&mut out, r as u32);
    out.push(32);
    push_decimal(&mut out, g as u32);
    out.push(32);
    push_decimal(&mut out, b as u32);
    out.push(10);
    assert(out@ =~= pixel_spec(r as nat, g as nat, b as nat));
    out
}

} // verus!
