use vstd::prelude::*;

verus! {

/// Largest value the four-digit display shows; larger values are clamped.
pub const DISPLAY_MAX: u16 = 9999;

/// `n` clamped to what four digits hold.
pub open spec fn clamped(n: int) -> int {
    if n > 9999 {
        9999
    } else {
        n
    }
}

/// The right-aligned, leading-zero-suppressed rendering of `n` (clamped):
/// thousands, hundreds, tens, ones, with `None` for a blank position.
pub open spec fn rendered(n: int) -> Seq<Option<u8>> {
    let c = clamped(n);
    seq![
        if c < 1000 { None } else { Some((c / 1000) as u8) },
        if c < 100 { None } else { Some((c / 100 % 10) as u8) },
        if c < 10 { None } else { Some((c / 10 % 10) as u8) },
        Some((c % 10) as u8),
    ]
}

/// What a position counts for, a blank counting as zero.
pub open spec fn cell_value(c: Option<u8>) -> int {
    match c {
        Some(d) => d as int,
        None => 0,
    }
}

/// Four positions, each blank or a decimal digit.
pub open spec fn valid_cells(cells: Seq<Option<u8>>) -> bool {
    &&& cells.len() == 4
    &&& forall|i: int|
        0 <= i < 4 ==> (#[trigger] cells[i] matches Some(d) ==> d <= 9)
}

/// The number four positions show, most significant first.
pub open spec fn joined(cells: Seq<Option<u8>>) -> int {
    1000 * cell_value(cells[0]) + 100 * cell_value(cells[1]) + 10 * cell_value(cells[2])
        + cell_value(cells[3])
}

/// Splits `n` into the four display positions, blanking leading zeros.
pub fn split(n: u16) -> (r: [Option<u8>; 4])
    ensures
        r@ == rendered(n as int),
        valid_cells(r@),
{
    let c: u16 = if n > DISPLAY_MAX {
        DISPLAY_MAX
    } else {
        n
    };
    let thousands: u8 = (c / 1000) as u8;
    let hundreds: u8 = (c / 100 % 10) as u8;
    let tens: u8 = (c / 10 % 10) as u8;
    let ones: u8 = (c % 10) as u8;
    let r = [
        if c < 1000 { None } else { Some(thousands) },
        if c < 100 { None } else { Some(hundreds) },
        if c < 10 { None } else { Some(tens) },
        Some(ones),
    ];
    assert(r@ =~= rendered(n as int));
    r
}

/// Value of one position, a blank counting as zero.
fn cell_digit(c: Option<u8>) -> (r: u16)
    ensures
        r == cell_value(c),
{
    match c {
        Some(d) => d as u16,
        None => 0,
    }
}

/// The number that four display positions show, blanks counting as zero.
pub fn join(cells: &[Option<u8>; 4]) -> (r: u16)
    requires
        valid_cells(cells@),
    ensures
        r == joined(cells@),
{
    let a = cell_digit(cells[0]);
    let b = cell_digit(cells[1]);
    let c = cell_digit(cells[2]);
    let d = cell_digit(cells[3]);
    assert(cells@[0] matches Some(x) ==> x <= 9);
    assert(cells@[1] matches Some(x) ==> x <= 9);
    assert(cells@[2] matches Some(x) ==> x <= 9);
    assert(cells@[3] matches Some(x) ==> x <= 9);
    1000 * a + 100 * b + 10 * c + d
}

/// Re-joining the rendering of any number the display holds gives it back.
pub proof fn lemma_join_split(n: u16)
    requires
        n <= 9999,
    ensures
        joined(rendered(n as int)) == n,
        valid_cells(rendered(n as int)),
{
    let c = n as int;
    assert(c == 1000 * (c / 1000) + 100 * (c / 100 % 10) + 10 * (c / 10 % 10) + c % 10)
        by (nonlinear_arith)
        requires
            0 <= c <= 9999,
    ;
    assert(0 <= c / 1000 <= 9) by (nonlinear_arith)
        requires
            0 <= c <= 9999,
    ;
    assert(c < 1000 ==> c / 1000 == 0);
    assert(c < 100 ==> c / 100 % 10 == 0);
    assert(c < 10 ==> c / 10 % 10 == 0);
}

} // verus!
