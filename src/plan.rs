use vstd::prelude::*;

verus! {

/// Which way a run walks the migration list.
#[derive(Debug, Clone, Copy, PartialEq, Eq, Structural)]
pub enum Direction {
    /// Applying `up`, towards higher versions.
    Up,
    /// Applying `down`, towards lower versions.
    Down,
}

/// The direction of a run from `current` to `target` (`Down` when they are equal,
/// which runs nothing).
pub open spec fn direction_of(current: i32, target: i32) -> Direction {
    if target > current {
        Direction::Up
    } else {
        Direction::Down
    }
}

/// `v` lies in the window `(lo, hi]`.
pub open spec fn in_window(v: i32, lo: i32, hi: i32) -> bool {
    lo < v && v <= hi
}

/// On the way down the migration at position `i` runs before the one at `j`:
/// the higher version first, and of two equal versions the later in the list.
pub open spec fn runs_before_down(versions: Seq<i32>, i: usize, j: usize) -> bool {
    versions[i as int] > versions[j as int] || (versions[i as int] == versions[j as int] && i > j)
}

/// `steps` holds positions of `versions` whose version lies in `(lo, hi]`,
/// and every such position.
pub open spec fn selects_window(versions: Seq<i32>, steps: Seq<usize>, lo: i32, hi: i32) -> bool {
    &&& forall|k: int|
        0 <= k < steps.len() ==> #[trigger] steps[k] < versions.len() && in_window(
            versions[steps[k] as int],
            lo,
            hi,
        )
    &&& forall|i: int|
        0 <= i < versions.len() && in_window(#[trigger] versions[i], lo, hi) ==> steps.contains(
            i as usize,
        )
}

/// The positions appear in list order, each once.
pub open spec fn in_list_order(steps: Seq<usize>) -> bool {
    forall|k: int, l: int| 0 <= k < l < steps.len() ==> steps[k] < steps[l]
}

/// The positions appear in the order a run down takes them, each once.
pub open spec fn in_descending_order(versions: Seq<i32>, steps: Seq<usize>) -> bool {
    forall|k: int, l: int|
        0 <= k < l < steps.len() ==> runs_before_down(versions, #[trigger] steps[k], #[trigger] steps[l])
}

/// `steps` are the positions in `versions`, in the order they run, of the
/// migrations that a run from `current` to `target` applies: going up, those
/// with a version in `(current, target]`, in list order; going down, those with
/// a version in `(target, current]`, highest version first.
pub open spec fn is_plan(versions: Seq<i32>, current: i32, target: i32, steps: Seq<usize>) -> bool {
    if target > current {
        selects_window(versions, steps, current, target) && in_list_order(steps)
    } else if target < current {
        selects_window(versions, steps, target, current) && in_descending_order(versions, steps)
    } else {
        steps.len() == 0
    }
}

/// The version recorded once the migration at position `p` was applied in
/// direction `d`: its own version going up, one less going down.
pub open spec fn version_after(versions: Seq<i32>, d: Direction, p: usize) -> int {
    match d {
        Direction::Up => versions[p as int] as int,
        Direction::Down => versions[p as int] - 1,
    }
}

/// The version recorded once every step of a run from `current` to `target`
/// succeeded.
pub open spec fn version_when_done(
    versions: Seq<i32>,
    current: i32,
    target: i32,
    steps: Seq<usize>,
) -> int {
    if steps.len() == 0 {
        current as int
    } else {
        version_after(versions, direction_of(current, target), steps.last())
    }
}

/// The highest version of the list, or 0 when it is empty.
pub open spec fn latest_of(versions: Seq<i32>) -> i32
    decreases versions.len(),
{
    if versions.len() == 0 {
        0
    } else if versions.len() == 1 {
        versions[0]
    } else {
        let rest = latest_of(versions.drop_last());
        if versions.last() > rest {
            versions.last()
        } else {
            rest
        }
    }
}

/// The latest version of a non-empty list is one of its versions, and no
/// version of the list is above it.
pub proof fn lemma_latest_is_max(versions: Seq<i32>)
    ensures
        versions.len() > 0 ==> versions.contains(latest_of(versions)),
        forall|i: int| 0 <= i < versions.len() ==> versions[i] <= latest_of(versions),
    decreases versions.len(),
{
    if versions.len() > 1 {
        let rest = versions.drop_last();
        lemma_latest_is_max(rest);
        assert forall|i: int| 0 <= i < versions.len() implies versions[i] <= latest_of(versions) by {
            if i < rest.len() {
                assert(rest[i] == versions[i]);
            }
        }
        if versions.last() <= latest_of(rest) {
            let k = choose|k: int| 0 <= k < rest.len() && rest[k] == latest_of(rest);
            assert(versions[k] == latest_of(versions));
        } else {
            assert(versions[versions.len() - 1] == latest_of(versions));
        }
    } else if versions.len() == 1 {
        assert(versions[0] == latest_of(versions));
    }
}

/// The highest version of the list, or 0 when it is empty.
pub fn latest_version(versions: &Vec<i32>) -> (r: i32)
    ensures
        r == latest_of(versions@),
        versions@.len() > 0 ==> versions@.contains(r),
        forall|i: int| 0 <= i < versions@.len() ==> versions@[i] <= r,
{
    proof {
        lemma_latest_is_max(versions@);
    }
    if versions.len() == 0 {
        return 0;
    }
    let mut best = versions[0];
    let mut i: usize = 1;
    assert(versions@.take(1).drop_last() == Seq::<i32>::empty());
    while i < versions.len()
        invariant
            1 <= i <= versions.len(),
            best == latest_of(versions@.take(i as int)),
        decreases versions.len() - i,
    {
        assert(versions@.take(i + 1).drop_last() == versions@.take(i as int));
        if versions[i] > best {
            best = versions[i];
        }
        i += 1;
    }
    assert(versions@.take(versions@.len() as int) == versions@);
    best
}

/// The positions of the migrations that a run from `current` to `target`
/// applies, in the order it applies them.
pub fn plan_steps(versions: &Vec<i32>, current: i32, target: i32) -> (steps: Vec<usize>)
    ensures
        is_plan(versions@, current, target, steps@),
{
    let mut steps: Vec<usize> = Vec::new();
    if target > current {
        let mut i: usize = 0;
        while i < versions.len()
            invariant
                i <= versions.len(),
                forall|k: int|
                    0 <= k < steps@.len() ==> #[trigger] steps@[k] < i && in_window(
                        versions@[steps@[k] as int],
                        current,
                        target,
                    ),
                forall|j: int|
                    0 <= j < i && in_window(#[trigger] versions@[j], current, target)
                        ==> steps@.contains(j as usize),
                in_list_order(steps@),
            decreases versions.len() - i,
        {
            if current < versions[i] && versions[i] <= target {
                let ghost before = steps@;
                steps.push(i);
                assert(steps@[steps@.len() - 1] == i);
                assert forall|x: usize| before.contains(x) implies steps@.contains(x) by {
                    let k = choose|k: int| 0 <= k < before.len() && before[k] == x;
                    assert(steps@[k] == x);
                }
            }
            i += 1;
        }
    } else if target < current {
        let mut i: usize = 0;
        while i < versions.len()
            invariant
                i <= versions.len(),
                target < current,
                forall|k: int|
                    0 <= k < steps@.len() ==> #[trigger] steps@[k] < i && in_window(
                        versions@[steps@[k] as int],
                        target,
                        current,
                    ),
                forall|j: int|
                    0 <= j < i && in_window(#[trigger] versions@[j], target, current)
                        ==> steps@.contains(j as usize),
                in_descending_order(versions@, steps@),
            decreases versions.len() - i,
        {
            let v = versions[i];
            if target < v && v <= current {
                let mut pos: usize = 0;
                while pos < steps.len() && versions[steps[pos]] > v
                    invariant
                        pos <= steps.len(),
                        forall|k: int| 0 <= k < steps@.len() ==> #[trigger] steps@[k] < i,
                        i < versions.len(),
                        forall|k: int| 0 <= k < pos ==> versions@[#[trigger] steps@[k] as int] > v,
                    decreases steps.len() - pos,
                {
                    pos += 1;
                }
                let ghost old_steps = steps@;
                proof {
                    lemma_down_insert(versions@, old_steps, pos as int, i);
                }
                steps.insert(pos, i);
            }
            i += 1;
        }
    }
    steps
}

/// Inserting position `i` (after every position of `s`) at `pos`, the first
/// place whose version is not above `i`'s, keeps the down order and adds `i`.
proof fn lemma_down_insert(versions: Seq<i32>, s: Seq<usize>, pos: int, i: usize)
    requires
        0 <= pos <= s.len(),
        i < versions.len(),
        forall|k: int| 0 <= k < s.len() ==> #[trigger] s[k] < i,
        forall|k: int| 0 <= k < pos ==> versions[#[trigger] s[k] as int] > versions[i as int],
        pos < s.len() ==> versions[s[pos] as int] <= versions[i as int],
        in_descending_order(versions, s),
    ensures
        in_descending_order(versions, s.insert(pos, i)),
        s.insert(pos, i)[pos] == i,
        forall|x: usize| s.contains(x) ==> s.insert(pos, i).contains(x),
{
    let t = s.insert(pos, i);
    assert forall|k: int, l: int| 0 <= k < l < t.len() implies runs_before_down(
        versions,
        #[trigger] t[k],
        #[trigger] t[l],
    ) by {
        if l < pos {
            assert(t[k] == s[k] && t[l] == s[l]);
        } else if l == pos {
            assert(t[k] == s[k]);
        } else if k > pos {
            assert(t[k] == s[k - 1] && t[l] == s[l - 1]);
        } else if k == pos {
            assert(t[l] == s[l - 1]);
            if l - 1 > pos {
                assert(runs_before_down(versions, s[pos], s[l - 1]));
            }
        } else {
            assert(t[k] == s[k] && t[l] == s[l - 1]);
        }
    }
    assert forall|x: usize| s.contains(x) implies t.contains(x) by {
        let k = choose|k: int| 0 <= k < s.len() && s[k] == x;
        if k < pos {
            assert(t[k] == x);
        } else {
            assert(t[k + 1] == x);
        }
    }
}

/// The versions `1, 2, ..., n`, in this order.
pub open spec fn consecutive(n: i32) -> Seq<i32> {
    Seq::new(n as nat, |i: int| (i + 1) as i32)
}

/// Going up from `a` to `b` (`a < b`) over the migrations `1, ..., n`
/// applies exactly `a + 1, ..., min(b, n)`, in ascending order, and the run
/// ends at version `min(b, n)`.
pub proof fn lemma_run_up(n: i32, a: i32, b: i32, steps: Seq<usize>)
    requires
        0 <= a <= n,
        a < b,
        is_plan(consecutive(n), a, b, steps),
    ensures
        steps.len() == (if b < n { b } else { n }) - a,
        forall|k: int| 0 <= k < steps.len() ==> consecutive(n)[steps[k] as int] == a + 1 + k,
        version_when_done(consecutive(n), a, b, steps) == (if b < n { b } else { n }),
{
    let vs = consecutive(n);
    let m: int = if b < n { b as int } else { n as int };
    if steps.len() > 0 {
        lemma_up_prefix(n, a, b, steps, steps.len() - 1);
    }
    if steps.len() < m - a {
        let j = a + steps.len();
        assert(in_window(vs[j], a, b));
        let l = choose|l: int| 0 <= l < steps.len() && steps[l] == j as usize;
    }
    if steps.len() > m - a {
        assert(steps[m - a] < vs.len() && in_window(vs[steps[m - a] as int], a, b));
    }
}

/// Each of the first `k + 1` steps of a run up over `1, ..., n` from `a` is
/// position `a + k`.
proof fn lemma_up_prefix(n: i32, a: i32, b: i32, steps: Seq<usize>, k: int)
    requires
        0 <= a <= n,
        a < b,
        is_plan(consecutive(n), a, b, steps),
        0 <= k < steps.len(),
    ensures
        forall|j: int| 0 <= j <= k ==> steps[j] == a + j,
    decreases k,
{
    let vs = consecutive(n);
    if k > 0 {
        lemma_up_prefix(n, a, b, steps, k - 1);
        assert(steps[k - 1] < steps[k]);
    }
    assert(steps[k] < vs.len() && in_window(vs[steps[k] as int], a, b));
    if steps[k] > a + k {
        let j = a + k;
        assert(in_window(vs[j], a, b));
        let l = choose|l: int| 0 <= l < steps.len() && steps[l] == j as usize;
        if l > k {
            assert(steps[k] < steps[l]);
        }
    }
}

/// Going down from `a` to `b` (`b < a`) over the migrations `1, ..., n`
/// reverts exactly `a, a - 1, ..., max(b + 1, 1)`, in descending order, and
/// the run ends at version `max(b, 0)`.
pub proof fn lemma_run_down(n: i32, a: i32, b: i32, steps: Seq<usize>)
    requires
        0 <= a <= n,
        b < a,
        is_plan(consecutive(n), a, b, steps),
    ensures
        steps.len() == a - (if b > 0 { b } else { 0 }),
        forall|k: int| 0 <= k < steps.len() ==> consecutive(n)[steps[k] as int] == a - k,
        version_when_done(consecutive(n), a, b, steps) == (if b > 0 { b } else { 0 }),
{
    let vs = consecutive(n);
    let lo: int = if b > 0 { b as int } else { 0 };
    if steps.len() > 0 {
        lemma_down_prefix(n, a, b, steps, steps.len() - 1);
    }
    if steps.len() < a - lo {
        let j = a - 1 - steps.len();
        assert(in_window(vs[j], b, a));
        let l = choose|l: int| 0 <= l < steps.len() && steps[l] == j as usize;
    }
    if steps.len() > a - lo {
        assert(steps[a - lo] < vs.len() && in_window(vs[steps[a - lo] as int], b, a));
    }
}

/// Each of the first `k + 1` steps of a run down over `1, ..., n` from `a`
/// is position `a - 1 - k`.
proof fn lemma_down_prefix(n: i32, a: i32, b: i32, steps: Seq<usize>, k: int)
    requires
        0 <= a <= n,
        b < a,
        is_plan(consecutive(n), a, b, steps),
        0 <= k < steps.len(),
    ensures
        forall|j: int| 0 <= j <= k ==> steps[j] == a - 1 - j,
    decreases k,
{
    let vs = consecutive(n);
    if k > 0 {
        lemma_down_prefix(n, a, b, steps, k - 1);
        assert(runs_before_down(vs, steps[k - 1], steps[k]));
    }
    assert(steps[k] < vs.len() && in_window(vs[steps[k] as int], b, a));
    if steps[k] < a - 1 - k {
        let j = a - 1 - k;
        assert(in_window(vs[j], b, a));
        let l = choose|l: int| 0 <= l < steps.len() && steps[l] == j as usize;
        if l > k {
            assert(runs_before_down(vs, steps[k], steps[l]));
        }
    }
}

} // verus!
