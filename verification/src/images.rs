//! Optional on-disk copies of captured screenshots: their names, and which of
//! them to delete when the cache outgrows its limit.
//!
//! Pruning only deletes files and never touches the history, so a missing file
//! simply means "no image".

use vstd::prelude::*;
use vstd::string::*;

use crate::xdg::{join, path_join};

verus! {

/// The decimal digit `d`, for `0 <= d < 10`.
pub open spec fn digit(d: int) -> char {
    ('0' as int + d) as char
}

/// `n` in decimal, without leading zeros.
pub open spec fn decimal(n: nat) -> Seq<char>
    decreases n,
{
    if n < 10 {
        seq![digit(n as int)]
    } else {
        decimal(n / 10).push(digit((n % 10) as int))
    }
}

/// `n` in decimal, left-padded with zeros to at least `width` digits.
pub open spec fn zero_padded(n: nat, width: nat) -> Seq<char> {
    let digits = decimal(n);
    if digits.len() < width {
        Seq::new((width - digits.len()) as nat, |_i: int| '0') + digits
    } else {
        digits
    }
}

/// The file name an image saved at `secs` seconds and `nanos` nanoseconds
/// past the Unix epoch gets.
pub open spec fn image_file_name(secs: nat, nanos: nat) -> Seq<char> {
    decimal(secs) + seq!['-'] + zero_padded(nanos, 9) + ".png"@
}

fn push_decimal(out: &mut String, n: u64)
    ensures
        final(out)@ == old(out)@ + decimal(n as nat),
    decreases n,
{
    if n >= 10 {
        push_decimal(out, n / 10);
    }
    let d = (n % 10) as u8;
    let c = (48u8 + d) as char;
    proof {
        assert(c == digit((n % 10) as int));
    }
    out.push(c);
    proof {
        if n >= 10 {
            assert(final(out)@ =~= old(out)@ + decimal(n as nat));
        } else {
            assert(final(out)@ =~= old(out)@ + decimal(n as nat));
        }
    }
}

fn decimal_len(n: u64) -> (res: usize)
    ensures
        res == decimal(n as nat).len(),
    decreases n,
{
    if n >= 10 {
        let rest = decimal_len(n / 10);
        proof {
            lemma_u64_decimal_short(n);
        }
        rest + 1
    } else {
        1
    }
}

/// Ten to the power `k`.
pub open spec fn pow10(k: nat) -> nat
    decreases k,
{
    if k == 0 {
        1
    } else {
        10 * pow10((k - 1) as nat)
    }
}

proof fn lemma_decimal_len_bound(n: nat, k: nat)
    requires
        k >= 1,
        n < pow10(k),
    ensures
        1 <= decimal(n).len() <= k,
    decreases n,
{
    if n >= 10 {
        assert(k >= 2) by {
            if k == 1 {
                assert(pow10(0) == 1);
            }
        }
        assert(n / 10 < pow10((k - 1) as nat));
        lemma_decimal_len_bound(n / 10, (k - 1) as nat);
    }
}

proof fn lemma_u64_decimal_short(n: u64)
    ensures
        1 <= decimal(n as nat).len() <= 20,
{
    assert(pow10(20) == 100000000000000000000) by {
        reveal_with_fuel(pow10, 21);
    }
    lemma_decimal_len_bound(n as nat, 20);
}

/// The name a new image is saved under: its time of saving, to the
/// nanosecond, which also makes the names sort by age.
pub fn image_name(secs: u64, nanos: u32) -> (res: String)
    ensures
        res@ == image_file_name(secs as nat, nanos as nat),
{
    let mut name = String::new();
    push_decimal(&mut name, secs);
    name.push('-');
    let digits = decimal_len(nanos as u64);
    proof {
        lemma_u64_decimal_short(nanos as u64);
    }
    let mut pad: usize = 0;
    let ghost head = name@;
    while digits + pad < 9
        invariant
            name@ == head + Seq::new(pad as nat, |_i: int| '0'),
            digits == decimal(nanos as nat).len(),
            digits <= 20,
            digits < 9 ==> pad <= 9 - digits,
            digits >= 9 ==> pad == 0,
        decreases 9 - digits - pad,
    {
        name.push('0');
        pad = pad + 1;
        proof {
            assert(name@ =~= head + Seq::new(pad as nat, |_i: int| '0'));
        }
    }
    push_decimal(&mut name, nanos as u64);
    name.push_str(".png");
    proof {
        if digits < 9 {
            assert(pad == 9 - digits);
        } else {
            assert(pad == 0);
            assert(Seq::new(0, |_i: int| '0') + decimal(nanos as nat) =~= decimal(nanos as nat));
        }
        assert(name@ =~= image_file_name(secs as nat, nanos as nat));
    }
    name
}

/// Where the image stored as `name` lives in the cache directory `dir`.
pub fn image_path(dir: &str, name: &str) -> (res: String)
    ensures
        res@ == path_join(dir@, name@),
{
    join(dir, name)
}

/// The cache's own directory under the cache directory.
pub const IMAGE_DIR: &'static str = "images";

/// A cached image, as far as pruning goes.
#[derive(Debug, Clone, Copy, PartialEq, Eq)]
pub struct ImageFile {
    /// When it was last modified, in nanoseconds since the Unix epoch.
    pub modified: u128,
    /// Its size in bytes.
    pub size: u64,
}

/// Whether image `j` goes before image `i` in age order: modified earlier,
/// or at the same time and listed earlier.
pub open spec fn older(files: Seq<ImageFile>, j: int, i: int) -> bool {
    files[j].modified < files[i].modified || (files[j].modified == files[i].modified && j < i)
}

/// The total size of the first `n` images that satisfy `pred`.
pub open spec fn size_where(files: Seq<ImageFile>, n: int, pred: spec_fn(int) -> bool) -> int
    decreases n,
{
    if n <= 0 {
        0
    } else {
        size_where(files, n - 1, pred) + if pred(n - 1) {
            files[n - 1].size as int
        } else {
            0
        }
    }
}

/// The total size of all the images.
pub open spec fn total_size(files: Seq<ImageFile>) -> int {
    size_where(files, files.len() as int, |j: int| true)
}

/// The total size of the images older than image `i`.
pub open spec fn older_size(files: Seq<ImageFile>, i: int) -> int {
    size_where(files, files.len() as int, |j: int| older(files, j, i))
}

/// Whether pruning to `limit` bytes deletes image `i`: deleting oldest first
/// and stopping as soon as the rest fits, it is reached while what is left
/// still does not fit.
pub open spec fn deleted(files: Seq<ImageFile>, limit: u64, i: int) -> bool {
    total_size(files) - older_size(files, i) > limit
}

/// The total size of the images that pruning keeps.
pub open spec fn kept_size(files: Seq<ImageFile>, limit: u64) -> int {
    size_where(files, files.len() as int, |j: int| !deleted(files, limit, j))
}

proof fn lemma_size_mono(files: Seq<ImageFile>, n: int, p: spec_fn(int) -> bool, q: spec_fn(int) -> bool)
    requires
        n <= files.len(),
        forall|j: int| 0 <= j < n && #[trigger] p(j) ==> q(j),
    ensures
        0 <= size_where(files, n, p) <= size_where(files, n, q),
    decreases n,
{
    if n > 0 {
        lemma_size_mono(files, n - 1, p, q);
    }
}

proof fn lemma_size_strict(
    files: Seq<ImageFile>,
    n: int,
    p: spec_fn(int) -> bool,
    q: spec_fn(int) -> bool,
    k: int,
)
    requires
        n <= files.len(),
        0 <= k < n,
        q(k) && !p(k),
        forall|j: int| 0 <= j < n && #[trigger] p(j) ==> q(j),
    ensures
        size_where(files, n, p) + files[k].size <= size_where(files, n, q),
    decreases n,
{
    if k < n - 1 {
        lemma_size_strict(files, n - 1, p, q, k);
    } else {
        lemma_size_mono(files, n - 1, p, q);
    }
}

proof fn lemma_size_ext(files: Seq<ImageFile>, n: int, p: spec_fn(int) -> bool, q: spec_fn(int) -> bool)
    requires
        n <= files.len(),
        forall|j: int| 0 <= j < n ==> #[trigger] p(j) == q(j),
    ensures
        size_where(files, n, p) == size_where(files, n, q),
    decreases n,
{
    if n > 0 {
        lemma_size_ext(files, n - 1, p, q);
    }
}

proof fn lemma_size_split(files: Seq<ImageFile>, n: int, p: spec_fn(int) -> bool)
    requires
        n <= files.len(),
    ensures
        size_where(files, n, p) + size_where(files, n, |j: int| !p(j)) == size_where(
            files,
            n,
            |j: int| true,
        ),
    decreases n,
{
    if n > 0 {
        lemma_size_split(files, n - 1, p);
    }
}

proof fn lemma_size_none(files: Seq<ImageFile>, n: int, p: spec_fn(int) -> bool)
    requires
        n <= files.len(),
        forall|j: int| 0 <= j < n ==> !#[trigger] p(j),
    ensures
        size_where(files, n, p) == 0,
    decreases n,
{
    if n > 0 {
        lemma_size_none(files, n - 1, p);
    }
}

fn is_older(files: &Vec<ImageFile>, j: usize, i: usize) -> (res: bool)
    requires
        j < files.len(),
        i < files.len(),
    ensures
        res == older(files@, j as int, i as int),
{
    files[j].modified < files[i].modified || (files[j].modified == files[i].modified && j < i)
}

fn sum_sizes(files: &Vec<ImageFile>, of: usize) -> (res: u128)
    requires
        of < files.len(),
    ensures
        res == older_size(files@, of as int),
{
    let n = files.len();
    let mut sum: u128 = 0;
    let mut j: usize = 0;
    while j < n
        invariant
            n == files.len(),
            of < n,
            j <= n,
            sum == size_where(files@, j as int, |k: int| older(files@, k, of as int)),
            sum <= j * (u64::MAX as int),
        decreases n - j,
    {
        proof {
            assert((j + 1) * (u64::MAX as int) <= u128::MAX) by (nonlinear_arith)
                requires
                    j + 1 <= usize::MAX + 1,
                    usize::MAX <= u64::MAX,
            ;
            assert((j + 1) * (u64::MAX as int) == j * (u64::MAX as int) + u64::MAX) by (
            nonlinear_arith);
        }
        if is_older(files, j, of) {
            sum = sum + files[j].size as u128;
        }
        j = j + 1;
    }
    sum
}

fn total_of(files: &Vec<ImageFile>) -> (res: u128)
    ensures
        res == total_size(files@),
{
    let n = files.len();
    let mut sum: u128 = 0;
    let mut j: usize = 0;
    while j < n
        invariant
            n == files.len(),
            j <= n,
            sum == size_where(files@, j as int, |k: int| true),
            sum <= j * (u64::MAX as int),
        decreases n - j,
    {
        proof {
            assert((j + 1) * (u64::MAX as int) <= u128::MAX) by (nonlinear_arith)
                requires
                    j + 1 <= usize::MAX + 1,
                    usize::MAX <= u64::MAX,
            ;
            assert((j + 1) * (u64::MAX as int) == j * (u64::MAX as int) + u64::MAX) by (
            nonlinear_arith);
        }
        sum = sum + files[j].size as u128;
        j = j + 1;
    }
    sum
}

/// Which images to delete so that the cache fits within `limit` bytes, as
/// indices into `files`, oldest first.
///
/// Deletes the oldest images, and no more of them than it takes for the rest
/// to fit: nothing at all when everything already fits.
pub fn prune_plan(files: &Vec<ImageFile>, limit: u64) -> (res: Vec<usize>)
    ensures
        forall|a: int|
            0 <= a < res@.len() ==> #[trigger] res@[a] < files@.len() && deleted(
                files@,
                limit,
                res@[a] as int,
            ),
        forall|i: int|
            0 <= i < files@.len() && deleted(files@, limit, i) ==> res@.contains(i as usize),
        forall|a: int, b: int|
            0 <= a < b < res@.len() ==> older(files@, #[trigger] res@[a] as int, #[trigger] res@[b] as int),
{
    let n = files.len();
    let total = total_of(files);
    let mut plan: Vec<usize> = Vec::new();
    let mut i: usize = 0;
    while i < n
        invariant
            n == files.len(),
            total == total_size(files@),
            i <= n,
            forall|a: int|
                0 <= a < plan@.len() ==> #[trigger] plan@[a] < i && deleted(
                    files@,
                    limit,
                    plan@[a] as int,
                ),
            forall|k: int| 0 <= k < i && deleted(files@, limit, k) ==> plan@.contains(k as usize),
            forall|a: int, b: int|
                0 <= a < b < plan@.len() ==> older(
                    files@,
                    #[trigger] plan@[a] as int,
                    #[trigger] plan@[b] as int,
                ),
        decreases n - i,
    {
        let before = sum_sizes(files, i);
        proof {
            let p = |k: int| older(files@, k, i as int);
            let q = |k: int| true;
            lemma_size_mono(files@, n as int, p, q);
        }
        if total - before > limit as u128 {
            let mut at: usize = 0;
            while at < plan.len() && !is_older(files, i, plan[at])
                invariant
                    n == files.len(),
                    i < n,
                    at <= plan.len(),
                    forall|a: int| 0 <= a < plan@.len() ==> #[trigger] plan@[a] < i,
                    forall|a: int| 0 <= a < at ==> !older(files@, i as int, #[trigger] plan@[a] as int),
                decreases plan.len() - at,
            {
                at = at + 1;
            }
            let ghost old_plan = plan@;
            plan.insert(at, i);
            proof {
                assert(plan@ == old_plan.insert(at as int, i));
                assert forall|a: int|
                    0 <= a < plan@.len() implies #[trigger] plan@[a] < i + 1 && deleted(
                        files@,
                        limit,
                        plan@[a] as int,
                    ) by {
                    if a < at {
                        assert(plan@[a] == old_plan[a]);
                    } else if a > at {
                        assert(plan@[a] == old_plan[a - 1]);
                    }
                }
                assert forall|k: int|
                    0 <= k < i + 1 && deleted(files@, limit, k) implies plan@.contains(k as usize) by {
                    if k == i {
                        assert(plan@[at as int] == i);
                    } else {
                        assert(old_plan.contains(k as usize));
                        let a = choose|a: int| 0 <= a < old_plan.len() && old_plan[a] == k as usize;
                        if a < at {
                            assert(plan@[a] == old_plan[a]);
                        } else {
                            assert(plan@[a + 1] == old_plan[a]);
                        }
                    }
                }
                assert forall|a: int, b: int|
                    0 <= a < b < plan@.len() implies older(
                        files@,
                        #[trigger] plan@[a] as int,
                        #[trigger] plan@[b] as int,
                    ) by {
                    if b < at {
                        assert(plan@[a] == old_plan[a] && plan@[b] == old_plan[b]);
                    } else if b == at {
                        assert(plan@[a] == old_plan[a]);
                        assert(old_plan[a] < i);
                        assert(!older(files@, i as int, old_plan[a] as int));
                    } else if a == at {
                        assert(plan@[b] == old_plan[b - 1]);
                        if b - 1 > at {
                            assert(older(files@, old_plan[at as int] as int, old_plan[b - 1] as int));
                        }
                    } else if a < at {
                        assert(plan@[a] == old_plan[a] && plan@[b] == old_plan[b - 1]);
                        assert(older(files@, old_plan[a] as int, i as int));
                        if at < old_plan.len() {
                            assert(older(files@, i as int, old_plan[at as int] as int));
                            if b - 1 > at {
                                assert(older(files@, old_plan[at as int] as int, old_plan[b - 1] as int));
                            }
                        }
                    } else {
                        assert(plan@[a] == old_plan[a - 1] && plan@[b] == old_plan[b - 1]);
                    }
                }
            }
        } else {
            proof {
                assert forall|k: int|
                    0 <= k < i + 1 && deleted(files@, limit, k) implies plan@.contains(k as usize) by {
                }
            }
        }
        i = i + 1;
    }
    plan
}

/// An older image is deleted whenever a younger one is: what pruning deletes
/// is always the oldest images.
pub proof fn prune_deletes_oldest_first(files: Seq<ImageFile>, limit: u64, i: int, j: int)
    requires
        0 <= i < files.len(),
        0 <= j < files.len(),
        older(files, j, i),
        deleted(files, limit, i),
    ensures
        deleted(files, limit, j),
{
    let pj = |k: int| older(files, k, j);
    let pi = |k: int| older(files, k, i);
    assert forall|k: int| 0 <= k < files.len() && #[trigger] pj(k) implies pi(k) by {}
    lemma_size_mono(files, files.len() as int, pj, pi);
}

proof fn lemma_oldest_kept(files: Seq<ImageFile>, limit: u64, n: int) -> (m: int)
    requires
        0 < n <= files.len(),
        exists|k: int| 0 <= k < n && !deleted(files, limit, k),
    ensures
        0 <= m < n,
        !deleted(files, limit, m),
        forall|k: int| 0 <= k < n && k != m && !deleted(files, limit, k) ==> older(files, m, k),
    decreases n,
{
    if exists|k: int| 0 <= k < n - 1 && !deleted(files, limit, k) {
        let m0 = lemma_oldest_kept(files, limit, n - 1);
        if !deleted(files, limit, n - 1) && older(files, n - 1, m0) {
            n - 1
        } else {
            m0
        }
    } else {
        n - 1
    }
}

/// While the images fit within the limit, pruning deletes none of them.
pub proof fn prune_keeps_everything_under_the_limit(files: Seq<ImageFile>, limit: u64, i: int)
    requires
        total_size(files) <= limit,
        0 <= i < files.len(),
    ensures
        !deleted(files, limit, i),
{
    lemma_size_mono(files, files.len() as int, |k: int| older(files, k, i), |k: int| true);
}

/// After pruning, what is left fits within the limit.
pub proof fn prune_fits_the_limit(files: Seq<ImageFile>, limit: u64)
    ensures
        kept_size(files, limit) <= limit,
{
    let n = files.len() as int;
    let kept = |j: int| !deleted(files, limit, j);
    if exists|k: int| 0 <= k < n && !deleted(files, limit, k) {
        let m = lemma_oldest_kept(files, limit, n);
        let gone = |j: int| deleted(files, limit, j);
        let before_m = |j: int| older(files, j, m);
        assert forall|j: int| 0 <= j < n implies #[trigger] gone(j) == before_m(j) by {
            if gone(j) && !before_m(j) {
                if j != m {
                    prune_deletes_oldest_first(files, limit, j, m);
                }
            }
        }
        lemma_size_ext(files, n, gone, before_m);
        lemma_size_split(files, n, gone);
        lemma_size_ext(files, n, |j: int| !gone(j), kept);
    } else {
        lemma_size_none(files, n, kept);
    }
}

} // verus!
