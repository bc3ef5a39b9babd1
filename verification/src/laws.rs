//! Laws of the registry: how the lifecycle operations compose, proved from
//! their contracts alone.

use vstd::prelude::*;
use crate::attribute::AttributeView;
use crate::lifecycle::{new_attribute_view, spec_validity, validity_fits};
use crate::registry::AttributeRegistry;

verus! {

/// Create-then-read: after a create of (owner, name), the lookup under the
/// current key of (owner, name) returns exactly the record the create stored;
/// with no expiry window given, its validity is the maximum height.
pub proof fn lemma_create_then_read(
    pre: AttributeRegistry,
    post: AttributeRegistry,
    owner: Seq<u8>,
    name: Seq<u8>,
    value: Seq<u8>,
    valid_for: Option<u64>,
    now_height: u64,
    now_moment: u64,
)
    requires
        AttributeRegistry::created_ok(
            pre,
            post,
            owner,
            name,
            value,
            valid_for,
            now_height,
            now_moment,
        ),
    ensures
        post.key_of(owner, name) == pre.key_of(owner, name),
        post.attr_at(owner, post.key_of(owner, name)) == Some(
            new_attribute_view(
                name,
                value,
                valid_for,
                now_height,
                now_moment,
                pre.nonce_of(owner, name),
            ),
        ),
        valid_for is None ==> post.attr_at(owner, post.key_of(owner, name)).unwrap().validity
            == u64::MAX,
{
    assert(post.nonce_of(owner, name) == pre.nonce_of(owner, name));
    assert(post.attr_at(owner, pre.key_of(owner, name)) == Some(
        new_attribute_view(
            name,
            value,
            valid_for,
            now_height,
            now_moment,
            pre.nonce_of(owner, name),
        ),
    ));
}

/// Create-then-delete-then-read: after a delete of (owner, name), the lookup
/// under the current key of (owner, name) finds nothing, so a read returns
/// absent and a second delete fails with `NotFound`.
pub proof fn lemma_delete_then_read(
    pre: AttributeRegistry,
    post: AttributeRegistry,
    owner: Seq<u8>,
    name: Seq<u8>,
)
    requires
        AttributeRegistry::deleted_ok(pre, post, owner, name),
    ensures
        post.key_of(owner, name) == pre.key_of(owner, name),
        post.attr_at(owner, post.key_of(owner, name)) is None,
{
    assert(post.nonce_of(owner, name) == pre.nonce_of(owner, name));
    assert(post.attr_at(owner, pre.key_of(owner, name)) is None);
}

/// Mutate preserves identity fields: after a create of (owner, name) and a
/// mutate of the same pair, the stored record carries the mutate's value and
/// validity, and the name, creation moment and nonce of the created record.
pub proof fn lemma_mutate_preserves_identity(
    s0: AttributeRegistry,
    s1: AttributeRegistry,
    s2: AttributeRegistry,
    owner: Seq<u8>,
    name: Seq<u8>,
    value1: Seq<u8>,
    value2: Seq<u8>,
    valid_for1: Option<u64>,
    valid_for2: Option<u64>,
    height1: u64,
    height2: u64,
    moment1: u64,
)
    requires
        AttributeRegistry::created_ok(s0, s1, owner, name, value1, valid_for1, height1, moment1),
        AttributeRegistry::mutated_ok(s1, s2, owner, name, value2, valid_for2, height2),
    ensures
        s2.attr_at(owner, s2.key_of(owner, name)) == Some(
            AttributeView {
                name,
                value: value2,
                validity: spec_validity(height2, valid_for2),
                created: moment1,
                nonce: s0.nonce_of(owner, name),
            },
        ),
{
    assert(s1.nonce_of(owner, name) == s0.nonce_of(owner, name));
    assert(s2.nonce_of(owner, name) == s1.nonce_of(owner, name));
    assert(s1.attr_at(owner, s0.key_of(owner, name)) == Some(
        new_attribute_view(
            name,
            value1,
            valid_for1,
            height1,
            moment1,
            s0.nonce_of(owner, name),
        ),
    ));
    assert(s2.attr_at(owner, s1.key_of(owner, name)) == Some(
        AttributeView {
            name,
            value: value2,
            validity: spec_validity(height2, valid_for2),
            created: moment1,
            nonce: s0.nonce_of(owner, name),
        },
    ));
}

/// Validity arithmetic: at height `H`, a window of `h` ticks yields the
/// absolute validity `H + h` exactly, a window of 0 yields `H`, and no window
/// yields the maximum height.
pub proof fn lemma_validity_arithmetic(now_height: u64, window: u64)
    requires
        validity_fits(now_height, Some(window)),
    ensures
        spec_validity(now_height, Some(window)) == now_height + window,
        spec_validity(now_height, Some(0)) == now_height,
        spec_validity(now_height, None) == u64::MAX,
{
}

/// Overwrite-on-recreate: two creates for the same (owner, name) without a
/// nonce advance write to the same key, so exactly one record remains, the
/// second; every other lookup is as before the first create.
pub proof fn lemma_recreate_overwrites(
    s0: AttributeRegistry,
    s1: AttributeRegistry,
    s2: AttributeRegistry,
    owner: Seq<u8>,
    name: Seq<u8>,
    value1: Seq<u8>,
    value2: Seq<u8>,
    valid_for1: Option<u64>,
    valid_for2: Option<u64>,
    height1: u64,
    height2: u64,
    moment1: u64,
    moment2: u64,
)
    requires
        AttributeRegistry::created_ok(s0, s1, owner, name, value1, valid_for1, height1, moment1),
        AttributeRegistry::created_ok(s1, s2, owner, name, value2, valid_for2, height2, moment2),
    ensures
        s2.key_of(owner, name) == s0.key_of(owner, name),
        s2.attr_at(owner, s2.key_of(owner, name)) == Some(
            new_attribute_view(
                name,
                value2,
                valid_for2,
                height2,
                moment2,
                s0.nonce_of(owner, name),
            ),
        ),
        forall|o: Seq<u8>, k: Seq<u8>|
            !(o == owner && k == s0.key_of(owner, name)) ==> #[trigger] s2.attr_at(o, k)
                == s0.attr_at(o, k),
{
    assert(s1.nonce_of(owner, name) == s0.nonce_of(owner, name));
    assert(s2.nonce_of(owner, name) == s1.nonce_of(owner, name));
    assert forall|o: Seq<u8>, k: Seq<u8>|
        !(o == owner && k == s0.key_of(owner, name)) implies #[trigger] s2.attr_at(o, k)
        == s0.attr_at(o, k) by {
        assert(s2.attr_at(o, k) == s1.attr_at(o, k));
        assert(s1.attr_at(o, k) == s0.attr_at(o, k));
    }
    assert(s2.attr_at(owner, s1.key_of(owner, name)) == Some(
        new_attribute_view(
            name,
            value2,
            valid_for2,
            height2,
            moment2,
            s1.nonce_of(owner, name),
        ),
    ));
}

} // verus!
