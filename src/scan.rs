use vstd::prelude::*;

verus! {

/// Image-plane position of the pixel at `index` in the output grid of a
/// `width` by `height` image. The grid lists rows from the top of the image
/// down, each left to right, while rows are counted from the bottom: the pair
/// is (column, row counted from the bottom).
pub open spec fn scan_pixel(index: nat, width: nat, height: nat) -> (nat, nat) {
    ((index % width) as nat, (height - 1 - index / width) as nat)
}

/// Position in the output grid of the pixel at `column`, `row` (counted from the
/// bottom) of a `width` by `height` image.
pub open spec fn scan_position(column: nat, row: nat, width: nat, height: nat) -> nat {
    ((height - 1 - row) * width + column) as nat
}

proof fn lemma_row_bound(index: nat, width: nat, height: nat)
    requires
        width > 0,
        index < width * height,
    ensures
        index / width < height,
        index % width < width,
        index == (index / width) * width + index % width,
{
    vstd::arithmetic::div_mod::lemma_fundamental_div_mod(index as int, width as int);
    vstd::arithmetic::div_mod::lemma_div_pos_is_pos(index as int, width as int);
    vstd::arithmetic::div_mod::lemma_mod_bound(index as int, width as int);
    assert(width * (index / width) == (index / width) * width) by (nonlinear_arith);
    if index / width >= height {
        assert((index / width) * width >= height * width) by (nonlinear_arith)
            requires
                index / width >= height,
                width > 0,
        ;
        assert(height * width == width * height) by (nonlinear_arith);
    }
}

/// The pixel at `index` of the output grid, as (column, row counted from the bottom).
pub fn pixel_at(index: usize, width: usize, height: usize) -> (r: (usize, usize))
    requires
        width > 0,
        index < width * height,
    ensures
        (r.0 as nat, r.1 as nat) == scan_pixel(index as nat, width as nat, height as nat),
        r.0 < width,
        r.1 < height,
{
    proof {
        lemma_row_bound(index as nat, width as nat, height as nat);
    }
    (index % width, height - 1 - index / width)
}

/// The position in the output grid of the pixel at `column`, `row` (counted from
/// the bottom).
pub fn scan_index(column: usize, row: usize, width: usize, height: usize) -> (r: usize)
    requires
        column < width,
        row < height,
        width * height <= usize::MAX,
    ensures
        r as nat == scan_position(column as nat, row as nat, width as nat, height as nat),
        r < width * height,
{
    proof {
        assert((height - 1 - row) * width + column < width * height) by (nonlinear_arith)
            requires
                column < width,
                row < height,
        ;
    }
    (height - 1 - row) * width + column
}

/// Pixels of a `width` by `height` image in output order: top row first, each row
/// left to right; each as (column, row counted from the bottom).
pub fn scan_order(width: usize, height: usize) -> (r: Vec<(usize, usize)>)
    requires
        width * height <= usize::MAX,
    ensures
        r@.len() == width * height,
        forall|k: int|
            0 <= k < r@.len() ==> (r@[k].0 as nat, r@[k].1 as nat) == #[trigger] scan_pixel(
                k as nat,
                width as nat,
                height as nat,
            ),
{
    let mut r: Vec<(usize, usize)> = Vec::new();
    let mut rows_done: usize = 0;
    while rows_done < height
        invariant
            rows_done <= height,
            width * height <= usize::MAX,
            r@.len() == rows_done * width,
            forall|k: int|
                0 <= k < r@.len() ==> (r@[k].0 as nat, r@[k].1 as nat) == #[trigger] scan_pixel(
                    k as nat,
                    width as nat,
                    height as nat,
                ),
        decreases height - rows_done,
    {
        let row = height - 1 - rows_done;
        proof {
            assert(rows_done * width + width <= width * height) by (nonlinear_arith)
                requires
                    rows_done < height,
            ;
        }
        let mut column: usize = 0;
        while column < width
            invariant
                rows_done < height,
                row == height - 1 - rows_done,
                column <= width,
                rows_done * width + width <= width * height,
                width * height <= usize::MAX,
                r@.len() == rows_done * width + column,
                forall|k: int|
                    0 <= k < r@.len() ==> (r@[k].0 as nat, r@[k].1 as nat) == #[trigger] scan_pixel(
                        k as nat,
                        width as nat,
                        height as nat,
                    ),
            decreases width - column,
        {
            proof {
                let k = rows_done * width + column;
                vstd::arithmetic::div_mod::lemma_fundamental_div_mod_converse(
                    k as int,
                    width as int,
                    rows_done as int,
                    column as int,
                );
                assert(k == width * rows_done + column) by (nonlinear_arith)
                    requires
                        k == rows_done * width + column,
                ;
            }
            r.push((column, row));
            column = column + 1;
        }
        proof {
            assert(rows_done * width + width == (rows_done + 1) * width) by (nonlinear_arith);
        }
        rows_done = rows_done + 1;
    }
    proof {
        assert(height * width == width * height) by (nonlinear_arith);
    }
    r
}

/// The position of a pixel in the output grid and the pixel at a position of the
/// grid determine each other: going from one to the other and back gives what
/// one started from.
pub proof fn lemma_scan_round_trip(index: nat, column: nat, row: nat, width: nat, height: nat)
    requires
        width > 0,
        index < width * height,
        column < width,
        row < height,
    ensures
        ({
            let p = scan_pixel(index, width, height);
            scan_position(p.0, p.1, width, height) == index
        }),
        scan_pixel(scan_position(column, row, width, height), width, height) == (column, row),
{
    lemma_row_bound(index, width, height);
    let k = (height - 1 - row) * width + column;
    vstd::arithmetic::div_mod::lemma_fundamental_div_mod_converse(
        k as int,
        width as int,
        (height - 1 - row) as int,
        column as int,
    );
    assert(k == width * (height - 1 - row) + column) by (nonlinear_arith)
        requires
            k == (height - 1 - row) * width + column,
    ;
}

} // verus!
