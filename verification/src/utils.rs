//! Small formatting helpers: decimal balance rendering, endpoint aliases and
//! line wrapping.

use vstd::prelude::*;
use vstd::string::StrSliceExecFns;

verus! {

/// Relies on `String::push`: appends exactly one character to the string.
#[verifier::external_body]
fn push_char(s: &mut String, c: char)
    ensures
        final(s)@ == old(s)@ + seq![c],
{
    s.push(c);
}

/// The character for a single decimal digit.
pub open spec fn digit_char(d: nat) -> char {
    if d == 0 {
        '0'
    } else if d == 1 {
        '1'
    } else if d == 2 {
        '2'
    } else if d == 3 {
        '3'
    } else if d == 4 {
        '4'
    } else if d == 5 {
        '5'
    } else if d == 6 {
        '6'
    } else if d == 7 {
        '7'
    } else if d == 8 {
        '8'
    } else {
        '9'
    }
}

/// The decimal digits of `n`, most significant first, with no leading zeros
/// except for `n == 0` itself, which is the single digit `0`.
pub open spec fn dec_digits(n: nat) -> Seq<char>
    decreases n,
{
    if n < 10 {
        seq![digit_char(n)]
    } else {
        dec_digits(n / 10) + seq![digit_char(n % 10)]
    }
}

/// The digits of `d` starting at position `i`, with a comma inserted before
/// every position (other than the first) whose distance from the end is a
/// multiple of three.
pub open spec fn grouped_from(d: Seq<char>, i: int) -> Seq<char>
    decreases d.len() - i,
{
    if i < 0 || i >= d.len() {
        Seq::<char>::empty()
    } else {
        (if i > 0 && (d.len() - i) % 3 == 0 {
            seq![',']
        } else {
            Seq::<char>::empty()
        }) + seq![d[i]] + grouped_from(d, i + 1)
    }
}

/// The rendering of `atoms` scaled down by `decimals` decimal places: the
/// integer part with thousands separators, a point, then exactly `decimals`
/// fractional digits; `0.` followed by zero-padded digits when every digit
/// is fractional.
pub open spec fn balance_chars(atoms: nat, decimals: nat) -> Seq<char> {
    let ds = dec_digits(atoms);
    if ds.len() > decimals {
        grouped_from(ds.take(ds.len() - decimals), 0) + seq!['.'] + ds.skip(
            ds.len() - decimals,
        )
    } else {
        seq!['0', '.'] + Seq::new((decimals - ds.len()) as nat, |i: int| '0') + ds
    }
}

/// The character for digit `d`.
fn digit_char_x(d: u64) -> (c: char)
    requires
        d < 10,
    ensures
        c == digit_char(d as nat),
{
    if d == 0 {
        '0'
    } else if d == 1 {
        '1'
    } else if d == 2 {
        '2'
    } else if d == 3 {
        '3'
    } else if d == 4 {
        '4'
    } else if d == 5 {
        '5'
    } else if d == 6 {
        '6'
    } else if d == 7 {
        '7'
    } else if d == 8 {
        '8'
    } else {
        '9'
    }
}

/// Appends the decimal digits of `n` to `out`.
fn push_digits(n: u64, out: &mut Vec<char>)
    ensures
        final(out)@ == old(out)@ + dec_digits(n as nat),
    decreases n,
{
    if n >= 10 {
        push_digits(n / 10, out);
    }
    out.push(digit_char_x(n % 10));
}

/// Appends the first `k` digits of `d` to `out` with thousands separators.
fn append_grouped(d: &Vec<char>, k: usize, out: &mut String)
    requires
        k <= d@.len(),
    ensures
        final(out)@ == old(out)@ + grouped_from(d@.take(k as int), 0),
{
    let ghost target = d@.take(k as int);
    let mut i: usize = 0;
    while i < k
        invariant
            i <= k <= d@.len(),
            target == d@.take(k as int),
            out@ + grouped_from(target, i as int) == old(out)@ + grouped_from(target, 0),
        decreases k - i,
    {
        assert(target[i as int] == d@[i as int]);
        if i > 0 && (k - i) % 3 == 0 {
            push_char(out, ',');
        }
        push_char(out, d[i]);
        i += 1;
    }
    assert(grouped_from(target, k as int) == Seq::<char>::empty());
}

/// Renders a raw integer amount of `atoms` as a decimal string with
/// `decimals` digits after the point, the integer part grouped by thousands.
pub fn display_balance(atoms: u64, decimals: usize) -> (r: String)
    ensures
        r@ == balance_chars(atoms as nat, decimals as nat),
{
    let mut ds: Vec<char> = Vec::new();
    push_digits(atoms, &mut ds);
    assert(ds@ == dec_digits(atoms as nat));
    let mut r = String::new();
    if ds.len() > decimals {
        let ipart = ds.len() - decimals;
        append_grouped(&ds, ipart, &mut r);
        push_char(&mut r, '.');
        let mut i: usize = ipart;
        while i < ds.len()
            invariant
                ipart <= i <= ds@.len(),
                r@ == grouped_from(ds@.take(ipart as int), 0) + seq!['.'] + ds@.subrange(
                    ipart as int,
                    i as int,
                ),
            decreases ds@.len() - i,
        {
            push_char(&mut r, ds[i]);
            assert(ds@.subrange(ipart as int, i + 1) == ds@.subrange(ipart as int, i as int)
                + seq![ds@[i as int]]);
            i += 1;
        }
        assert(ds@.subrange(ipart as int, ds@.len() as int) == ds@.skip(ipart as int));
    } else {
        push_char(&mut r, '0');
        push_char(&mut r, '.');
        let ghost zeros = Seq::new((decimals - ds@.len()) as nat, |i: int| '0');
        let mut z: usize = ds.len();
        while z < decimals
            invariant
                ds@.len() <= z <= decimals,
                r@ == seq!['0', '.'] + Seq::new((z - ds@.len()) as nat, |i: int| '0'),
            decreases decimals - z,
        {
            push_char(&mut r, '0');
            assert(Seq::new((z + 1 - ds@.len()) as nat, |i: int| '0') =~= Seq::new(
                (z - ds@.len()) as nat,
                |i: int| '0',
            ) + seq!['0']);
            z += 1;
        }
        let mut i: usize = 0;
        while i < ds.len()
            invariant
                i <= ds@.len(),
                r@ == seq!['0', '.'] + Seq::new((decimals - ds@.len()) as nat, |i: int| '0')
                    + ds@.take(i as int),
            decreases ds@.len() - i,
        {
            push_char(&mut r, ds[i]);
            assert(ds@.take(i + 1) == ds@.take(i as int) + seq![ds@[i as int]]);
            i += 1;
        }
        assert(ds@.take(ds@.len() as int) == ds@);
    }
    r
}

/// The URL that a network alias stands for; an unknown alias is returned
/// unchanged as a custom endpoint.
pub open spec fn network_url(s: Seq<char>) -> Seq<char> {
    if s == "devnet"@ || s == "dev"@ || s == "d"@ {
        "https://api.devnet.solana.com"@
    } else if s == "testnet"@ || s == "test"@ || s == "t"@ {
        "https://api.testnet.solana.com"@
    } else if s == "mainnet"@ || s == "main"@ || s == "m"@ || s == "mainnet-beta"@ {
        "https://api.mainnet-beta.solana.com"@
    } else if s == "localnet"@ || s == "localhost"@ || s == "l"@ || s == "local"@ {
        "http://localhost:8899"@
    } else {
        s
    }
}

/// Relies on `str` equality: two string slices are equal exactly when their
/// character sequences are.
#[verifier::external_body]
pub(crate) fn str_eq(a: &str, b: &str) -> (r: bool)
    ensures
        r == (a@ == b@),
{
    a == b
}

/// Maps a network alias to its RPC endpoint URL; anything unrecognized is
/// taken to be a custom endpoint already.
pub fn get_network(network_str: &str) -> (r: String)
    ensures
        r@ == network_url(network_str@),
{
    if str_eq(network_str, "devnet") || str_eq(network_str, "dev") || str_eq(network_str, "d") {
        "https://api.devnet.solana.com".to_owned()
    } else if str_eq(network_str, "testnet") || str_eq(network_str, "test") || str_eq(
        network_str,
        "t",
    ) {
        "https://api.testnet.solana.com".to_owned()
    } else if str_eq(network_str, "mainnet") || str_eq(network_str, "main") || str_eq(
        network_str,
        "m",
    ) || str_eq(network_str, "mainnet-beta") {
        "https://api.mainnet-beta.solana.com".to_owned()
    } else if str_eq(network_str, "localnet") || str_eq(network_str, "localhost") || str_eq(
        network_str,
        "l",
    ) || str_eq(network_str, "local") {
        "http://localhost:8899".to_owned()
    } else {
        network_str.to_owned()
    }
}

/// The characters of `s` with a newline inserted whenever `counter` many
/// characters have been emitted since the last newline.
pub open spec fn wrapped_from(s: Seq<char>, n: nat, counter: nat) -> Seq<char>
    decreases s.len(),
{
    if s.len() == 0 {
        Seq::<char>::empty()
    } else if counter == n {
        seq!['\n', s[0]] + wrapped_from(s.skip(1), n, 1)
    } else {
        seq![s[0]] + wrapped_from(s.skip(1), n, counter + 1)
    }
}

/// Inserts a newline after every `n` characters of `s`.
pub fn insert_newlines(s: &str, n: usize) -> (r: String)
    ensures
        r@ == wrapped_from(s@, n as nat, 0),
{
    let len = s.unicode_len();
    let mut r = String::new();
    let mut counter: usize = 0;
    let mut i: usize = 0;
    assert(s@.skip(0) =~= s@);
    assert(r@ + wrapped_from(s@, n as nat, 0) =~= wrapped_from(s@, n as nat, 0));
    while i < len
        invariant
            i <= len,
            len == s@.len(),
            n >= 1 ==> counter <= n,
            n == 0 ==> counter == i,
            r@ + wrapped_from(s@.skip(i as int), n as nat, counter as nat) == wrapped_from(
                s@,
                n as nat,
                0,
            ),
        decreases len - i,
    {
        let c = s.get_char(i);
        assert(s@.skip(i as int)[0] == s@[i as int]);
        assert(s@.skip(i as int).skip(1) =~= s@.skip(i + 1));
        if counter == n {
            push_char(&mut r, '\n');
            counter = 0;
        }
        push_char(&mut r, c);
        counter += 1;
        i += 1;
    }
    assert(s@.skip(len as int) =~= Seq::<char>::empty());
    r
}

} // verus!
