//! Post-processing of the enumerated device list: order devices by their
//! device-node number (devices connected first are more likely to be
//! relevant), and give devices that share a name a one-based index so the
//! caller can tell them apart.

use vstd::prelude::*;
use vstd::string::StrSliceExecFns;

use crate::strings::str_eq;
use crate::types::Device;

verus! {

broadcast use vstd::seq_lib::group_to_multiset_ensures;

/// The device-node number a device was enumerated under.
pub open spec fn node_key(d: Device) -> int {
    d.namenum->0 as int
}

/// Whether a device sequence is ordered by device-node number.
pub open spec fn sorted_by_node(s: Seq<Device>) -> bool {
    forall|i: int, j: int| 0 <= i < j < s.len() ==> node_key(s[i]) <= node_key(s[j])
}

/// Sort the enumerated devices by their device-node number. The list is
/// reordered and nothing else: the same devices come out that went in.
pub fn sort_devices(devices: &mut Vec<Device>)
    requires
        forall|i: int| 0 <= i < old(devices)@.len() ==> (#[trigger] old(devices)@[i]).namenum
            is Some,
    ensures
        final(devices)@.to_multiset() == old(devices)@.to_multiset(),
        sorted_by_node(final(devices)@),
        forall|i: int| 0 <= i < final(devices)@.len() ==> (#[trigger] final(devices)@[i]).namenum
            is Some,
{
    let ghost orig = devices@;
    let mut out: Vec<Device> = Vec::new();
    while devices.len() > 0
        invariant
            out@.to_multiset().add(devices@.to_multiset()) =~= orig.to_multiset(),
            sorted_by_node(out@),
            forall|i: int| 0 <= i < devices@.len() ==> (#[trigger] devices@[i]).namenum is Some,
            forall|i: int| 0 <= i < out@.len() ==> (#[trigger] out@[i]).namenum is Some,
            forall|i: int, j: int|
                0 <= i < out@.len() && 0 <= j < devices@.len() ==> node_key(out@[i]) <= node_key(
                    devices@[j],
                ),
        decreases devices@.len(),
    {
        // index of the smallest remaining node number
        let mut mi: usize = 0;
        let mut k: usize = 1;
        while k < devices.len()
            invariant
                0 < devices@.len(),
                0 <= mi < k <= devices@.len(),
                forall|i: int| 0 <= i < devices@.len() ==> (#[trigger] devices@[i]).namenum
                    is Some,
                forall|j: int|
                    0 <= j < k ==> node_key(devices@[mi as int]) <= node_key(
                        #[trigger] devices@[j],
                    ),
            decreases devices@.len() - k,
        {
            let a = match devices[k].namenum {
                Some(n) => n,
                None => 0,
            };
            let b = match devices[mi].namenum {
                Some(n) => n,
                None => 0,
            };
            if a < b {
                mi = k;
            }
            k = k + 1;
        }
        let d = devices.remove(mi);
        out.push(d);
    }
    *devices = out;
}

/// How many of the first `upto` devices of `s` carry the given name.
pub open spec fn name_count(s: Seq<Device>, name: Seq<char>, upto: int) -> nat
    decreases upto,
{
    if upto <= 0 {
        0
    } else {
        name_count(s, name, upto - 1) + (if s[upto - 1].name@ == name {
            1nat
        } else {
            0nat
        })
    }
}

/// Give every device that repeats an earlier device's name a one-based
/// display index: the first device of a name is left untouched, the
/// second shows as index 1, the third as index 2, and so on. Names,
/// classifications, and node numbers are unchanged.
pub fn assign_duplicate_indices(devices: &mut Vec<Device>)
    requires
        old(devices)@.len() <= u16::MAX,
    ensures
        final(devices)@.len() == old(devices)@.len(),
        forall|i: int|
            0 <= i < old(devices)@.len() ==> {
                let before = #[trigger] old(devices)@[i];
                let after = final(devices)@[i];
                &&& after.name == before.name
                &&& after.devicetype == before.devicetype
                &&& after.namenum == before.namenum
                &&& (name_count(old(devices)@, before.name@, i) == 0 ==> after == before)
                &&& (name_count(old(devices)@, before.name@, i) > 0 ==> after.index == name_count(
                    old(devices)@,
                    before.name@,
                    i,
                ) && after.showindex)
            },
{
    let ghost orig = devices@;
    let n = devices.len();
    let mut i: usize = 0;
    while i < n
        invariant
            0 <= i <= n,
            n == orig.len(),
            n <= u16::MAX,
            devices@.len() == orig.len(),
            forall|k: int|
                0 <= k < orig.len() ==> {
                    let before = #[trigger] orig[k];
                    let now = devices@[k];
                    &&& now.name == before.name
                    &&& now.devicetype == before.devicetype
                    &&& now.namenum == before.namenum
                },
            forall|k: int| i <= k < orig.len() ==> #[trigger] devices@[k] == orig[k],
            forall|k: int|
                0 <= k < i ==> {
                    let before = #[trigger] orig[k];
                    let now = devices@[k];
                    &&& (name_count(orig, before.name@, k) == 0 ==> now == before)
                    &&& (name_count(orig, before.name@, k) > 0 ==> now.index == name_count(
                        orig,
                        before.name@,
                        k,
                    ) && now.showindex)
                },
        decreases n - i,
    {
        let mut c: u16 = 0;
        let mut j: usize = 0;
        while j < i
            invariant
                0 <= j <= i < n,
                n == orig.len(),
                n <= u16::MAX,
                devices@.len() == orig.len(),
                forall|k: int| 0 <= k < orig.len() ==> (#[trigger] devices@[k]).name == orig[k].name,
                c <= j,
                c == name_count(orig, orig[i as int].name@, j as int),
            decreases i - j,
        {
            if str_eq(devices[j].name.as_str(), devices[i].name.as_str()) {
                c = c + 1;
            }
            j = j + 1;
        }
        if c > 0 {
            let ghost pre = devices@;
            let d = devices.remove(i);
            let renamed = Device { index: c, showindex: true, ..d };
            devices.insert(i, renamed);
            proof {
                assert(devices@ =~= pre.update(i as int, renamed));
            }
        }
        i = i + 1;
    }
}

/// The position of the first comma in `s`, or `s.len()` if there is none.
pub open spec fn first_comma(s: Seq<char>) -> int
    decreases s.len(),
{
    if s.len() == 0 {
        0
    } else if s[0] == ',' {
        0
    } else {
        1 + first_comma(s.skip(1))
    }
}

/// `first_comma` points at a comma inside the string or just past its
/// end, and nothing before it is a comma.
pub proof fn lemma_first_comma_bounds(s: Seq<char>)
    ensures
        0 <= first_comma(s) <= s.len(),
        first_comma(s) < s.len() ==> s[first_comma(s)] == ',',
        forall|j: int| 0 <= j < first_comma(s) ==> s[j] != ',',
    decreases s.len(),
{
    if s.len() > 0 && s[0] != ',' {
        lemma_first_comma_bounds(s.skip(1));
        assert forall|j: int| 0 <= j < first_comma(s) implies s[j] != ',' by {
            if j > 0 {
                assert(s.skip(1)[j - 1] == s[j]);
            }
        }
        if first_comma(s) < s.len() {
            assert(s.skip(1)[first_comma(s) - 1] == s[first_comma(s)]);
        }
    }
}

/// The position before which nothing is a comma, and at which a comma (or
/// the end) stands, is the first comma.
pub proof fn lemma_first_comma_at(s: Seq<char>, k: int)
    requires
        0 <= k <= s.len(),
        forall|j: int| 0 <= j < k ==> s[j] != ',',
        k < s.len() ==> s[k] == ',',
    ensures
        first_comma(s) == k,
    decreases k,
{
    if k > 0 {
        assert(s[0] != ',');
        assert forall|j: int| 0 <= j < k - 1 implies s.skip(1)[j] != ',' by {
            assert(s.skip(1)[j] == s[j + 1]);
        }
        if k - 1 < s.skip(1).len() {
            assert(s.skip(1)[k - 1] == s[k]);
        }
        lemma_first_comma_at(s.skip(1), k - 1);
    } else {
        if s.len() > 0 {
            assert(s[0] == ',');
        }
    }
}

/// The comma-separated pieces of `s`, in order. An empty string is one
/// empty piece; a trailing comma ends with an empty piece.
pub open spec fn split_commas(s: Seq<char>) -> Seq<Seq<char>>
    decreases s.len(),
    via split_commas_decreases
{
    if first_comma(s) == s.len() {
        seq![s]
    } else {
        seq![s.take(first_comma(s))] + split_commas(s.skip(first_comma(s) + 1))
    }
}

#[via_fn]
proof fn split_commas_decreases(s: Seq<char>) {
    lemma_first_comma_bounds(s);
}

/// The device-node path for one device identifier.
pub open spec fn spec_device_path(piece: Seq<char>) -> Seq<char> {
    "/dev/input/event"@ + piece
}

/// The device-node paths for a list of identifier pieces.
pub open spec fn spec_device_paths(pieces: Seq<Seq<char>>) -> Seq<Seq<char>> {
    pieces.map_values(|piece: Seq<char>| spec_device_path(piece))
}

/// The character contents of a list of path strings.
pub open spec fn path_views(paths: Seq<String>) -> Seq<Seq<char>> {
    paths.map_values(|p: String| p@)
}

/// Turn the caller's comma-separated list of device numbers (for example
/// `"25,28"`) into one kernel device-node path per entry.
pub fn device_paths(devices: &str) -> (paths: Vec<String>)
    ensures
        path_views(paths@) == spec_device_paths(split_commas(devices@)),
{
    let len = devices.unicode_len();
    let mut paths: Vec<String> = Vec::new();
    let mut start: usize = 0;
    proof {
        assert(devices@.skip(0) =~= devices@);
        assert(path_views(paths@) =~= Seq::<Seq<char>>::empty());
        assert(spec_device_paths(split_commas(devices@)) =~~= path_views(paths@)
            + spec_device_paths(split_commas(devices@.skip(0))));
    }
    loop
        invariant
            start <= len,
            len == devices@.len(),
            spec_device_paths(split_commas(devices@)) =~~= path_views(paths@) + spec_device_paths(
                split_commas(devices@.skip(start as int)),
            ),
        decreases len - start,
    {
        let ghost rest = devices@.skip(start as int);
        let mut i: usize = start;
        while i < len && devices.get_char(i) != ','
            invariant
                start <= i <= len,
                len == devices@.len(),
                forall|j: int| start <= j < i ==> devices@[j] != ',',
            decreases len - i,
        {
            i = i + 1;
        }
        proof {
            assert forall|j: int| 0 <= j < i - start implies rest[j] != ',' by {
                assert(rest[j] == devices@[start + j]);
            }
            if (i as int) < len {
                assert(rest[i - start] == devices@[i as int]);
            }
            lemma_first_comma_at(rest, i - start);
        }
        let piece = devices.substring_char(start, i);
        let mut path = "/dev/input/event".to_owned();
        path.append(piece);
        paths.push(path);
        if i == len {
            proof {
                assert(rest.take(rest.len() as int) =~= rest);
                assert(piece@ =~= rest);
                assert(split_commas(rest) =~= seq![rest]);
                assert(path_views(paths@) =~= path_views(paths@.drop_last()) + seq![path@]);
                assert(spec_device_paths(seq![rest]) =~= seq![spec_device_path(rest)]);
                assert(path_views(paths@) =~~= spec_device_paths(split_commas(devices@)));
            }
            return paths;
        }
        proof {
            let fc = i - start;
            assert(split_commas(rest) =~~= seq![rest.take(fc)] + split_commas(
                rest.skip(fc + 1),
            ));
            assert(piece@ =~= rest.take(fc));
            assert(rest.skip(fc + 1) =~= devices@.skip(i + 1));
            assert(path_views(paths@) =~= path_views(paths@.drop_last()) + seq![path@]);
            assert(spec_device_paths(seq![rest.take(fc)] + split_commas(rest.skip(fc + 1)))
                =~~= seq![spec_device_path(rest.take(fc))] + spec_device_paths(
                split_commas(rest.skip(fc + 1)),
            ));
            assert(spec_device_paths(split_commas(devices@)) =~~= path_views(paths@)
                + spec_device_paths(split_commas(devices@.skip(i + 1))));
        }
        start = i + 1;
    }
}

} // verus!
