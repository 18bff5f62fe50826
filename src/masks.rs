use vstd::prelude::*;

verus! {

/// Rows of the grid that a glyph's shape is sampled on.
pub const SUBPIXEL64_ROWS: u32 = 16;

/// Columns of the grid that a glyph's shape is sampled on.
pub const SUBPIXEL64_COLUMNS: u32 = 8;

/// Whether the sample at `row` lies in the lowest `n` rows of the grid.
pub open spec fn lower(row: int, n: int) -> bool {
    15 - row < n
}

/// Whether the sample at `column` lies in the leftmost `n` columns of the grid.
pub open spec fn left(column: int, n: int) -> bool {
    column < n
}

/// Whether the sample lies on or above the line whose height over the bottom edge is
/// `column * num / den + b`: the shape of the sloped glyphs.
pub open spec fn ramp(row: int, column: int, num: int, den: int, b: int) -> bool {
    den * (16 - row) <= num * column + den * b
}

/// The characters whose shapes are known.
pub open spec fn is_mask_char(ch: char) -> bool {
    ||| ch == '\u{1FB3C}'
        ||| ch == '\u{1FB3D}'
        ||| ch == '\u{1FB3E}'
        ||| ch == '\u{1FB3F}'
        ||| ch == '\u{1FB40}'
        ||| ch == '\u{1FB46}'
        ||| ch == '\u{1FB47}'
        ||| ch == '\u{1FB48}'
        ||| ch == '\u{1FB49}'
        ||| ch == '\u{1FB4A}'
        ||| ch == '\u{1FB4B}'
        ||| ch == '\u{1FB51}'
        ||| ch == '\u{1FB57}'
        ||| ch == '\u{1FB58}'
        ||| ch == '\u{1FB59}'
        ||| ch == '\u{1FB5A}'
        ||| ch == '\u{1FB5B}'
        ||| ch == '\u{1FB5C}'
        ||| ch == '\u{1FB62}'
        ||| ch == '\u{1FB63}'
        ||| ch == '\u{1FB64}'
        ||| ch == '\u{1FB65}'
        ||| ch == '\u{1FB66}'
        ||| ch == '\u{1FB67}'
        ||| ch == '\u{2581}'
        ||| ch == '\u{2582}'
        ||| ch == '\u{2583}'
        ||| ch == '\u{2584}'
        ||| ch == '\u{2585}'
        ||| ch == '\u{2586}'
        ||| ch == '\u{2587}'
        ||| ch == '\u{2588}'
        ||| ch == '\u{2589}'
        ||| ch == '\u{258A}'
        ||| ch == '\u{258B}'
        ||| ch == '\u{258C}'
        ||| ch == '\u{258D}'
        ||| ch == '\u{258E}'
        ||| ch == '\u{258F}'
        ||| ch == '\u{2596}'
        ||| ch == '\u{2597}'
        ||| ch == '\u{2598}'
        ||| ch == '\u{259A}'
        ||| ch == '\u{259D}'
        ||| ch == '\u{25E2}'
        ||| ch == '\u{25E3}'
}

/// Whether the glyph `ch` covers the sample at `row`, `column` of a 16 × 8 grid.
pub open spec fn char_mask(ch: char, row: int, column: int) -> bool {
    match ch {
        '\u{2581}' => lower(row, 2),
        '\u{2582}' => lower(row, 4),
        '\u{2583}' => lower(row, 6),
        '\u{2584}' => lower(row, 8),
        '\u{2585}' => lower(row, 10),
        '\u{2586}' => lower(row, 12),
        '\u{2587}' => lower(row, 14),
        '\u{2588}' => true,
        '\u{2589}' => left(column, 7),
        '\u{258A}' => left(column, 6),
        '\u{258B}' => left(column, 5),
        '\u{258C}' => left(column, 4),
        '\u{258D}' => left(column, 3),
        '\u{258E}' => left(column, 2),
        '\u{258F}' => left(column, 1),
        '\u{2596}' => left(column, 4) && lower(row, 8),
        '\u{2597}' => !left(column, 4) && lower(row, 8),
        '\u{2598}' => left(column, 4) && !lower(row, 8),
        '\u{259A}' => lower(row, 4) != left(column, 8),
        '\u{259D}' => !left(column, 4) && !lower(row, 8),
        '\u{1FB47}' => ramp(row, column, 1, 1, -4),
        '\u{1FB48}' => ramp(row, column, 3, 5, 0),
        '\u{1FB49}' => ramp(row, column, 2, 1, -8),
        '\u{1FB4A}' => ramp(row, column, 1, 1, 0),
        '\u{1FB4B}' => ramp(row, column, 4, 1, -16),
        '\u{1FB46}' => ramp(row, column, 1, 1, 4),
        '\u{25E2}' => ramp(row, column, 2, 1, 0),
        '\u{25E3}' => ramp(row, column, 1, 1, -4),
        '\u{1FB51}' => ramp(row, 8 - column, 1, 1, 4),
        '\u{1FB40}' => ramp(row, 8 - column, 4, 1, -16),
        '\u{1FB3F}' => ramp(row, 8 - column, 1, 1, 0),
        '\u{1FB3E}' => ramp(row, 8 - column, 2, 1, -8),
        '\u{1FB3D}' => ramp(row, 8 - column, 3, 5, 0),
        '\u{1FB3C}' => ramp(row, 8 - column, 1, 1, -4),
        '\u{1FB62}' => ramp(16 - row, column, 1, 1, -4),
        '\u{1FB63}' => ramp(16 - row, column, 3, 5, 0),
        '\u{1FB64}' => ramp(16 - row, column, 2, 1, -8),
        '\u{1FB65}' => ramp(16 - row, column, 1, 1, 0),
        '\u{1FB66}' => ramp(16 - row, column, 4, 1, -16),
        '\u{1FB67}' => ramp(16 - row, column, 1, 1, 4),
        '\u{1FB5C}' => ramp(16 - row, 8 - column, 1, 1, 4),
        '\u{1FB5B}' => ramp(16 - row, 8 - column, 4, 1, -16),
        '\u{1FB5A}' => ramp(16 - row, 8 - column, 1, 1, 0),
        '\u{1FB59}' => ramp(16 - row, 8 - column, 2, 1, -8),
        '\u{1FB58}' => ramp(16 - row, 8 - column, 3, 5, 0),
        '\u{1FB57}' => ramp(16 - row, 8 - column, 1, 1, -4),
        _ => false,
    }
}

/// The glyphs tried when a cell is matched against shapes, in the order they are tried.
pub open spec fn all_mask_chars() -> Seq<char> {
    seq!['\u{2581}', '\u{2582}', '\u{2583}', '\u{2584}', '\u{2585}', '\u{2586}', '\u{2587}', '\u{2589}', '\u{258A}', '\u{258B}', '\u{258C}', '\u{258D}', '\u{258E}', '\u{258F}', '\u{2596}', '\u{2597}', '\u{2598}', '\u{259A}', '\u{259D}', '\u{1FB47}', '\u{1FB48}', '\u{1FB49}', '\u{1FB4A}', '\u{1FB4B}', '\u{1FB46}', '\u{1FB51}', '\u{1FB40}', '\u{1FB3F}', '\u{1FB3E}', '\u{1FB3D}', '\u{1FB3C}', '\u{1FB62}', '\u{1FB63}', '\u{1FB64}', '\u{1FB65}', '\u{1FB66}', '\u{1FB67}', '\u{1FB5C}', '\u{1FB5B}', '\u{1FB5A}', '\u{1FB59}', '\u{1FB58}', '\u{1FB57}']
}

fn lower_exec(row: i64, n: i64) -> (r: bool)
    requires
        0 <= row <= 16,
    ensures
        r == lower(row as int, n as int),
{
    15 - row < n
}

fn left_exec(column: i64, n: i64) -> (r: bool)
    ensures
        r == left(column as int, n as int),
{
    column < n
}

fn ramp_exec(row: i64, column: i64, num: i64, den: i64, b: i64) -> (r: bool)
    requires
        0 <= row <= 16,
        0 <= column <= 8,
        1 <= den <= 5,
        0 <= num <= 4,
        -16 <= b <= 4,
    ensures
        r == ramp(row as int, column as int, num as int, den as int, b as int),
{
    assert(0 <= den * (16 - row) <= 80 && 0 <= num * column <= 32 && -80 <= den * b <= 20)
        by (nonlinear_arith)
        requires
            0 <= row <= 16,
            0 <= column <= 8,
            1 <= den <= 5,
            0 <= num <= 4,
            -16 <= b <= 4,
    ;
    den * (16 - row) <= num * column + den * b
}

/// Something that says which samples of the 16 × 8 grid a glyph covers.
pub trait Masker {
    spec fn covers(&self, row: int, column: int) -> bool;

    spec fn can_mask(&self) -> bool;

    fn mask(&self, row: usize, column: usize) -> (r: bool)
        requires
            self.can_mask(),
            row < 16,
            column < 8,
        ensures
            r == self.covers(row as int, column as int),
    ;
}

/// The shape of a block-element glyph.
pub struct CharMasker(pub char);

impl Masker for CharMasker {
    open spec fn covers(&self, row: int, column: int) -> bool {
        char_mask(self.0, row, column)
    }

    open spec fn can_mask(&self) -> bool {
        is_mask_char(self.0)
    }

    fn mask(&self, row: usize, column: usize) -> (r: bool) {
        match self.0 {
            '\u{2581}' => lower_exec(row as i64, 2),
            '\u{2582}' => lower_exec(row as i64, 4),
            '\u{2583}' => lower_exec(row as i64, 6),
            '\u{2584}' => lower_exec(row as i64, 8),
            '\u{2585}' => lower_exec(row as i64, 10),
            '\u{2586}' => lower_exec(row as i64, 12),
            '\u{2587}' => lower_exec(row as i64, 14),
            '\u{2588}' => true,
            '\u{2589}' => left_exec(column as i64, 7),
            '\u{258A}' => left_exec(column as i64, 6),
            '\u{258B}' => left_exec(column as i64, 5),
            '\u{258C}' => left_exec(column as i64, 4),
            '\u{258D}' => left_exec(column as i64, 3),
            '\u{258E}' => left_exec(column as i64, 2),
            '\u{258F}' => left_exec(column as i64, 1),
            '\u{2596}' => left_exec(column as i64, 4) && lower_exec(row as i64, 8),
            '\u{2597}' => !left_exec(column as i64, 4) && lower_exec(row as i64, 8),
            '\u{2598}' => left_exec(column as i64, 4) && !lower_exec(row as i64, 8),
            '\u{259A}' => lower_exec(row as i64, 4) != left_exec(column as i64, 8),
            '\u{259D}' => !left_exec(column as i64, 4) && !lower_exec(row as i64, 8),
            '\u{1FB47}' => ramp_exec(row as i64, column as i64, 1, 1, -4),
            '\u{1FB48}' => ramp_exec(row as i64, column as i64, 3, 5, 0),
            '\u{1FB49}' => ramp_exec(row as i64, column as i64, 2, 1, -8),
            '\u{1FB4A}' => ramp_exec(row as i64, column as i64, 1, 1, 0),
            '\u{1FB4B}' => ramp_exec(row as i64, column as i64, 4, 1, -16),
            '\u{1FB46}' => ramp_exec(row as i64, column as i64, 1, 1, 4),
            '\u{25E2}' => ramp_exec(row as i64, column as i64, 2, 1, 0),
            '\u{25E3}' => ramp_exec(row as i64, column as i64, 1, 1, -4),
            '\u{1FB51}' => ramp_exec(row as i64, 8 - column as i64, 1, 1, 4),
            '\u{1FB40}' => ramp_exec(row as i64, 8 - column as i64, 4, 1, -16),
            '\u{1FB3F}' => ramp_exec(row as i64, 8 - column as i64, 1, 1, 0),
            '\u{1FB3E}' => ramp_exec(row as i64, 8 - column as i64, 2, 1, -8),
            '\u{1FB3D}' => ramp_exec(row as i64, 8 - column as i64, 3, 5, 0),
            '\u{1FB3C}' => ramp_exec(row as i64, 8 - column as i64, 1, 1, -4),
            '\u{1FB62}' => ramp_exec(16 - row as i64, column as i64, 1, 1, -4),
            '\u{1FB63}' => ramp_exec(16 - row as i64, column as i64, 3, 5, 0),
            '\u{1FB64}' => ramp_exec(16 - row as i64, column as i64, 2, 1, -8),
            '\u{1FB65}' => ramp_exec(16 - row as i64, column as i64, 1, 1, 0),
            '\u{1FB66}' => ramp_exec(16 - row as i64, column as i64, 4, 1, -16),
            '\u{1FB67}' => ramp_exec(16 - row as i64, column as i64, 1, 1, 4),
            '\u{1FB5C}' => ramp_exec(16 - row as i64, 8 - column as i64, 1, 1, 4),
            '\u{1FB5B}' => ramp_exec(16 - row as i64, 8 - column as i64, 4, 1, -16),
            '\u{1FB5A}' => ramp_exec(16 - row as i64, 8 - column as i64, 1, 1, 0),
            '\u{1FB59}' => ramp_exec(16 - row as i64, 8 - column as i64, 2, 1, -8),
            '\u{1FB58}' => ramp_exec(16 - row as i64, 8 - column as i64, 3, 5, 0),
            '\u{1FB57}' => ramp_exec(16 - row as i64, 8 - column as i64, 1, 1, -4),
            _ => false,
        }
    }
}

/// A glyph and the samples of the 16 × 8 grid that it covers, row by row.
pub struct Mask {
    pub char: char,
    pub mask: [[bool; 8]; 16],
}

impl Mask {
    /// Every sample of the grid says whether the glyph covers it.
    pub open spec fn matches_char(&self) -> bool {
        forall|row: int, column: int|
            #![trigger self.mask@[row]@[column]]
            0 <= row < 16 && 0 <= column < 8 ==> self.mask@[row]@[column] == char_mask(
                self.char,
                row,
                column,
            )
    }

    /// Samples the shape of `masker`'s glyph on the grid.
    pub fn new(masker: CharMasker) -> (m: Mask)
        requires
            is_mask_char(masker.0),
        ensures
            m.char == masker.0,
            m.matches_char(),
    {
        let mut mask = [[false; 8]; 16];
        let mut row: usize = 0;
        while row < 16
            invariant
                row <= 16,
                is_mask_char(masker.0),
                mask@.len() == 16,
                forall|r: int, c: int|
                    #![trigger mask@[r]@[c]]
                    0 <= r < row && 0 <= c < 8 ==> mask@[r]@[c] == char_mask(masker.0, r, c),
            decreases 16 - row,
        {
            let mut line = [false; 8];
            let mut column: usize = 0;
            while column < 8
                invariant
                    column <= 8,
                    row < 16,
                    is_mask_char(masker.0),
                    line@.len() == 8,
                    forall|c: int|
                        0 <= c < column ==> line@[c] == char_mask(masker.0, row as int, c),
                decreases 8 - column,
            {
                let m = masker.mask(row, column);
                line[column] = m;
                column = column + 1;
            }
            mask[row] = line;
            row = row + 1;
        }
        Mask { char: masker.0, mask }
    }
}

/// The sampled shape of the glyph `mask_char`.
pub fn get_mask_for_char(mask_char: char) -> (m: Mask)
    requires
        is_mask_char(mask_char),
    ensures
        m.char == mask_char,
        m.matches_char(),
{
    Mask::new(CharMasker(mask_char))
}

/// The sampled shapes of all the glyphs in `all_mask_chars`, in that order.
pub fn get_all_masks() -> (masks: Vec<Mask>)
    ensures
        masks@.len() == all_mask_chars().len(),
        forall|i: int|
            0 <= i < masks@.len() ==> masks@[i].char == all_mask_chars()[i] && masks@[i].matches_char(),
{
    let chars: [char; 43] = [
        '\u{2581}', '\u{2582}', '\u{2583}', '\u{2584}', '\u{2585}', '\u{2586}', '\u{2587}', '\u{2589}', '\u{258A}', '\u{258B}', '\u{258C}', '\u{258D}', '\u{258E}', '\u{258F}', '\u{2596}', '\u{2597}', '\u{2598}', '\u{259A}', '\u{259D}', '\u{1FB47}', '\u{1FB48}', '\u{1FB49}', '\u{1FB4A}', '\u{1FB4B}', '\u{1FB46}', '\u{1FB51}', '\u{1FB40}', '\u{1FB3F}', '\u{1FB3E}', '\u{1FB3D}', '\u{1FB3C}', '\u{1FB62}', '\u{1FB63}', '\u{1FB64}', '\u{1FB65}', '\u{1FB66}', '\u{1FB67}', '\u{1FB5C}', '\u{1FB5B}', '\u{1FB5A}', '\u{1FB59}', '\u{1FB58}', '\u{1FB57}'
    ];
    assert(chars@ =~= all_mask_chars());
    let mut masks: Vec<Mask> = Vec::new();
    let mut i: usize = 0;
    while i < 43
        invariant
            i <= 43,
            chars@ == all_mask_chars(),
            masks@.len() == i,
            forall|j: int|
                0 <= j < i ==> masks@[j].char == all_mask_chars()[j] && masks@[j].matches_char(),
        decreases 43 - i,
    {
        assert(is_mask_char(chars@[i as int]));
        masks.push(get_mask_for_char(chars[i]));
        i = i + 1;
    }
    masks
}

} // verus!
