use vstd::prelude::*;
use vstd::string::StringSliceAdditionalSpecFns;
use vstd::utf8::encode_utf8;

verus! {

/// The bytes of the role that makes a caller an administrator: `admin`.
pub open spec fn admin_role() -> Seq<u8> {
    seq![0x61u8, 0x64u8, 0x6du8, 0x69u8, 0x6eu8]
}

/// Whether the bytes from `start` up to `end` are one item of the
/// comma-separated list `roles`: they reach from the start of the list or
/// from behind a comma to the end of the list or to the next comma.
pub open spec fn is_item(roles: Seq<u8>, start: int, end: int) -> bool {
    &&& 0 <= start <= end <= roles.len()
    &&& start == 0 || roles[start - 1] == 0x2cu8
    &&& end == roles.len() || roles[end] == 0x2cu8
    &&& forall|k: int| start <= k < end ==> #[trigger] roles[k] != 0x2cu8
}

/// Whether `role` is one of the items of the comma-separated list
/// `roles`, as it stands there: no space is taken off and no case is
/// changed.
pub open spec fn has_role(roles: Seq<u8>, role: Seq<u8>) -> bool {
    exists|start: int, end: int| #[trigger]
        is_item(roles, start, end) && roles.subrange(start, end) == role
}

/// Whether the comma-separated list `roles` names the role `admin`. The
/// list is read as the bytes of its UTF-8 text.
pub open spec fn names_admin(roles: Seq<char>) -> bool {
    has_role(encode_utf8(roles), admin_role())
}

/// Whether the bytes of `roles` from `start` up to `end` are those of
/// `admin`.
fn is_admin_item(roles: &[u8], start: usize, end: usize) -> (matches: bool)
    requires
        start <= end <= roles@.len(),
    ensures
        matches == (roles@.subrange(start as int, end as int) == admin_role()),
{
    let ghost item = roles@.subrange(start as int, end as int);
    if end - start != 5 {
        assert(item.len() != admin_role().len());
        return false;
    }
    let matches = roles[start] == 0x61 && roles[start + 1] == 0x64 && roles[start + 2] == 0x6d
        && roles[start + 3] == 0x69 && roles[start + 4] == 0x6e;
    proof {
        assert(item[0] == roles@[start as int]);
        assert(item[1] == roles@[start + 1]);
        assert(item[2] == roles@[start + 2]);
        assert(item[3] == roles@[start + 3]);
        assert(item[4] == roles@[start + 4]);
        if matches {
            assert(item =~= admin_role());
        }
    }
    matches
}

/// Where no item that ends before `start` is `role`, and the item from
/// `start` up to `end` is not `role` either, no item that ends at `end`
/// or before it is `role`: an item that ends between `start` and `end`
/// is the item from `start` up to `end` itself.
proof fn lemma_no_role_up_to(roles: Seq<u8>, role: Seq<u8>, start: int, end: int)
    requires
        is_item(roles, start, end),
        roles.subrange(start, end) != role,
        forall|s: int, e: int| #[trigger]
            is_item(roles, s, e) && e < start ==> roles.subrange(s, e) != role,
    ensures
        forall|s: int, e: int| #[trigger]
            is_item(roles, s, e) && e <= end ==> roles.subrange(s, e) != role,
{
    assert forall|s: int, e: int| #[trigger] is_item(roles, s, e) && e <= end implies roles.subrange(
        s,
        e,
    ) != role by {
        if e >= start {
            if e < end {
                assert(roles[e] != 0x2cu8);
            }
            if s < start {
                assert(roles[start - 1] != 0x2cu8);
            }
            if s > start {
                assert(roles[s - 1] != 0x2cu8);
            }
        }
    }
}

/// Whether the comma-separated list `roles` names the role `admin`.
pub fn contains_role_admin(roles: &str) -> (found: bool)
    ensures
        found == names_admin(roles@),
{
    let bytes = roles.as_bytes();
    let length = bytes.len();
    let mut start: usize = 0;
    let mut i: usize = 0;
    while i < length
        invariant
            length == bytes@.len(),
            bytes@ == roles.spec_bytes(),
            start <= i <= length,
            start == 0 || bytes@[start - 1] == 0x2cu8,
            forall|k: int| start <= k < i ==> #[trigger] bytes@[k] != 0x2cu8,
            forall|s: int, e: int| #[trigger]
                is_item(bytes@, s, e) && e < start ==> bytes@.subrange(s, e) != admin_role(),
        decreases length - i,
    {
        if bytes[i] == 0x2c {
            assert(is_item(bytes@, start as int, i as int));
            if is_admin_item(bytes, start, i) {
                return true;
            }
            proof {
                lemma_no_role_up_to(bytes@, admin_role(), start as int, i as int);
            }
            start = i + 1;
        }
        i += 1;
    }
    assert(is_item(bytes@, start as int, length as int));
    let found = is_admin_item(bytes, start, length);
    proof {
        if !found {
            lemma_no_role_up_to(bytes@, admin_role(), start as int, length as int);
        }
    }
    found
}

} // verus!
