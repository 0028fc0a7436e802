//! Gathering equal windows of a list: the layout changes between token-major
//! and head-major rows.

use crate::qwen35_execution::extend_window;
use vstd::prelude::*;

verus! {

/// The windows of `width` elements that begin at `start(0)`, `start(1)`, ...,
/// one after the other.
pub open spec fn windows<T>(
    values: Seq<T>,
    width: int,
    count: int,
    start: spec_fn(int) -> int,
) -> Seq<T> {
    Seq::new((count * width) as nat, |i: int| values[start(i / width) + i % width])
}

/// Element `i` of window `row` is element `start(row) + i` of the list.
pub proof fn lemma_window_element<T>(
    values: Seq<T>,
    width: int,
    count: int,
    start: spec_fn(int) -> int,
    row: int,
    i: int,
)
    requires
        0 <= row < count,
        0 <= i < width,
    ensures
        0 <= row * width + i < count * width,
        windows(values, width, count, start)[row * width + i] == values[start(row) + i],
{
    assert(0 <= row * width) by (nonlinear_arith)
        requires
            0 <= row,
            0 <= width,
    ;
    assert(row * width + width <= count * width) by (nonlinear_arith)
        requires
            row + 1 <= count,
            0 <= width,
    ;
    vstd::arithmetic::div_mod::lemma_fundamental_div_mod_converse(row * width + i, width, row, i);
}

/// One more window extends the gathered list by its elements.
pub proof fn lemma_windows_push<T>(
    values: Seq<T>,
    width: int,
    count: int,
    start: spec_fn(int) -> int,
)
    requires
        0 <= count,
        0 <= width,
        0 <= start(count),
        start(count) + width <= values.len(),
    ensures
        windows(values, width, count + 1, start) == windows(values, width, count, start)
            + values.subrange(start(count), start(count) + width),
{
    let longer = windows(values, width, count + 1, start);
    let shorter = windows(values, width, count, start);
    let last = values.subrange(start(count), start(count) + width);
    assert((count + 1) * width == count * width + width) by (nonlinear_arith);
    assert(0 <= count * width) by (nonlinear_arith)
        requires
            0 <= count,
            0 <= width,
    ;
    assert forall|i: int| 0 <= i < longer.len() implies longer[i] == (shorter + last)[i] by {
        if i >= count * width {
            lemma_window_element(values, width, count + 1, start, count, i - count * width);
        }
    }
    assert(longer =~= shorter + last);
}

/// The window starts that turn token-major rows into head-major rows: row
/// `h * tokens + t` is head `h` of token `t`.
pub open spec fn head_major_start(
    tokens: int,
    channels: int,
    offset: int,
    width: int,
) -> spec_fn(int) -> int {
    |row: int| (row % tokens) * channels + offset + (row / tokens) * width
}

/// The head-major rows of token-major values.
pub open spec fn head_major<T>(
    values: Seq<T>,
    tokens: int,
    channels: int,
    offset: int,
    heads: int,
    width: int,
) -> Seq<T> {
    windows(values, width, heads * tokens, head_major_start(tokens, channels, offset, width))
}

/// The window starts that turn head-major rows into token-major rows: row
/// `t * heads + h` is token `t` of head `h`.
pub open spec fn token_major_start(tokens: int, heads: int, width: int) -> spec_fn(int) -> int {
    |row: int| (row % heads) * (tokens * width) + (row / heads) * width
}

/// The token-major rows of head-major values.
pub open spec fn token_major<T>(values: Seq<T>, tokens: int, heads: int, width: int) -> Seq<T> {
    windows(values, width, tokens * heads, token_major_start(tokens, heads, width))
}

/// The window starts that repeat key heads for every value head.
pub open spec fn tiled_start(key_heads: int, length: int) -> spec_fn(int) -> int {
    |head: int| (head % key_heads) * length
}

/// The key head of every value head, in order: value head `h` reads key head
/// `h % key_heads`.
pub open spec fn tiled<T>(values: Seq<T>, key_heads: int, value_heads: int, length: int) -> Seq<T> {
    windows(values, length, value_heads, tiled_start(key_heads, length))
}

/// Element `i` of head `head` of token `token` in head-major rows.
pub proof fn lemma_head_major_element<T>(
    values: Seq<T>,
    tokens: int,
    channels: int,
    offset: int,
    heads: int,
    width: int,
    head: int,
    token: int,
    i: int,
)
    requires
        0 <= head < heads,
        0 <= token < tokens,
        0 <= i < width,
    ensures
        0 <= (head * tokens + token) * width + i < heads * tokens * width,
        head_major(values, tokens, channels, offset, heads, width)[(head * tokens + token) * width
            + i] == values[token * channels + offset + head * width + i],
{
    let row = head * tokens + token;
    assert(0 <= row < heads * tokens) by (nonlinear_arith)
        requires
            0 <= head < heads,
            0 <= token < tokens,
            row == head * tokens + token,
    ;
    vstd::arithmetic::div_mod::lemma_fundamental_div_mod_converse(row, tokens, head, token);
    lemma_window_element(
        values,
        width,
        heads * tokens,
        head_major_start(tokens, channels, offset, width),
        row,
        i,
    );
}

/// Element `i` of head `head` of token `token` in token-major rows.
pub proof fn lemma_token_major_element<T>(
    values: Seq<T>,
    tokens: int,
    heads: int,
    width: int,
    head: int,
    token: int,
    i: int,
)
    requires
        0 <= head < heads,
        0 <= token < tokens,
        0 <= i < width,
    ensures
        0 <= (token * heads + head) * width + i < tokens * heads * width,
        token_major(values, tokens, heads, width)[(token * heads + head) * width + i]
            == values[head * (tokens * width) + token * width + i],
{
    let row = token * heads + head;
    assert(0 <= row < tokens * heads) by (nonlinear_arith)
        requires
            0 <= head < heads,
            0 <= token < tokens,
            row == token * heads + head,
    ;
    vstd::arithmetic::div_mod::lemma_fundamental_div_mod_converse(row, heads, token, head);
    lemma_window_element(
        values,
        width,
        tokens * heads,
        token_major_start(tokens, heads, width),
        row,
        i,
    );
}

/// Going to head-major rows and back restores every value.
pub proof fn lemma_round_trip<T>(values: Seq<T>, tokens: int, heads: int, width: int)
    requires
        0 <= tokens,
        0 <= heads,
        0 <= width,
        values.len() == tokens * heads * width,
    ensures
        token_major(
            head_major(values, tokens, heads * width, 0, heads, width),
            tokens,
            heads,
            width,
        ) == values,
{
    let there = head_major(values, tokens, heads * width, 0, heads, width);
    let back = token_major(there, tokens, heads, width);
    assert forall|k: int| 0 <= k < values.len() implies back[k] == values[k] by {
        lemma_flat_index(k, tokens, heads, width);
        let row = k / width;
        let i = k % width;
        let token = row / heads;
        let head = row % heads;
        lemma_token_major_element(there, tokens, heads, width, head, token, i);
        lemma_head_major_element(
            values,
            tokens,
            heads * width,
            0,
            heads,
            width,
            head,
            token,
            i,
        );
        assert((token * heads + head) * width + i == k);
        assert((head * tokens + token) * width + i == head * (tokens * width) + token * width + i)
            by (nonlinear_arith);
        assert(token * (heads * width) + 0 + head * width + i == (token * heads + head) * width + i)
            by (nonlinear_arith);
    }
    assert(back =~= values);
}

/// A flat index of `tokens * heads * width` values names a token, a head, and an element.
proof fn lemma_flat_index(k: int, tokens: int, heads: int, width: int)
    requires
        0 <= tokens,
        0 <= heads,
        0 <= width,
        0 <= k < tokens * heads * width,
    ensures
        width > 0,
        heads > 0,
        0 <= k % width < width,
        0 <= (k / width) % heads < heads,
        0 <= (k / width) / heads < tokens,
        (((k / width) / heads) * heads + (k / width) % heads) * width + k % width == k,
{
    assert(width > 0 && heads > 0) by (nonlinear_arith)
        requires
            0 <= tokens,
            0 <= heads,
            0 <= width,
            0 < tokens * heads * width,
    ;
    let row = k / width;
    vstd::arithmetic::div_mod::lemma_fundamental_div_mod(k, width);
    vstd::arithmetic::div_mod::lemma_fundamental_div_mod(row, heads);
    vstd::arithmetic::div_mod::lemma_mod_bound(k, width);
    vstd::arithmetic::div_mod::lemma_mod_bound(row, heads);
    assert(0 <= row < tokens * heads) by (nonlinear_arith)
        requires
            0 <= k < tokens * heads * width,
            k == width * row + k % width,
            0 <= k % width < width,
            width > 0,
    ;
    assert(0 <= row / heads < tokens) by (nonlinear_arith)
        requires
            0 <= row < tokens * heads,
            row == heads * (row / heads) + row % heads,
            0 <= row % heads < heads,
            heads > 0,
    ;
    assert((row / heads) * heads == heads * (row / heads)) by (nonlinear_arith);
    assert(row * width == width * row) by (nonlinear_arith);
}

/// Append one window to a gathered list.
pub(crate) fn push_window<T: Copy>(
    output: &mut Vec<T>,
    values: &[T],
    at: usize,
    width: usize,
    count: Ghost<int>,
    start: Ghost<spec_fn(int) -> int>,
)
    requires
        0 <= count@,
        start@(count@) == at,
        at + width <= values@.len(),
        old(output)@ == windows(values@, width as int, count@, start@),
    ensures
        final(output)@ == windows(values@, width as int, count@ + 1, start@),
{
    let length: usize = values.len();
    assert(at + width <= length);
    extend_window(output, values, at, at + width);
    proof {
        lemma_windows_push(values@, width as int, count@, start@);
    }
}

} // verus!
