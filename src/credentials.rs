use vstd::prelude::*;

verus! {

/// The key that stands for the pool when no key is configured.
pub const DEFAULT_API_KEY: &'static str = "default";

/// The configured keys that are set, in configuration order.
pub open spec fn present_keys(configured: Seq<Option<String>>) -> Seq<Seq<char>>
    decreases configured.len(),
{
    if configured.len() == 0 {
        Seq::empty()
    } else {
        let rest = present_keys(configured.drop_last());
        match configured.last() {
            Some(k) => rest.push(k@),
            None => rest,
        }
    }
}

/// The server's key pool: the keys that are set, or the default key alone
/// when none is.
pub open spec fn key_pool(configured: Seq<Option<String>>) -> Seq<Seq<char>> {
    if present_keys(configured).len() == 0 {
        seq![DEFAULT_API_KEY@]
    } else {
        present_keys(configured)
    }
}

/// The keys of a pool as plain text.
pub open spec fn keys_view(keys: Seq<String>) -> Seq<Seq<char>> {
    keys.map_values(|k: String| k@)
}

/// Builds the server's YouTube key pool from the configured key slots, in
/// slot order (`None` for a slot that is not set); an empty pool becomes the
/// default key alone.
pub fn get_youtube_api_keys(configured: &Vec<Option<String>>) -> (r: Vec<String>)
    ensures
        keys_view(r@) == key_pool(configured@),
{
    let mut keys: Vec<String> = Vec::new();
    let mut i: usize = 0;
    while i < configured.len()
        invariant
            i <= configured.len(),
            keys_view(keys@) == present_keys(configured@.subrange(0, i as int)),
        decreases configured.len() - i,
    {
        proof {
            let pre = configured@.subrange(0, i as int + 1);
            assert(pre.drop_last() =~= configured@.subrange(0, i as int));
            assert(pre.last() == configured@[i as int]);
        }
        match &configured[i] {
            Some(k) => {
                keys.push(k.clone());
            },
            None => {},
        }
        assert(keys_view(keys@) =~= present_keys(configured@.subrange(0, i as int + 1)));
        i = i + 1;
    }
    assert(configured@.subrange(0, configured.len() as int) =~= configured@);
    if keys.len() == 0 {
        keys.push(DEFAULT_API_KEY.to_owned());
        assert(keys_view(keys@) =~= seq![DEFAULT_API_KEY@]);
    }
    keys
}

/// A key a user offers replaces nothing: it is empty or the default key.
pub open spec fn is_user_key(k: Seq<char>) -> bool {
    k.len() > 0 && k != DEFAULT_API_KEY@
}

/// Whether a key offered by a user is taken: it is neither empty nor the
/// default key.
pub fn accept_user_key(k: &str) -> (r: bool)
    ensures
        r == is_user_key(k@),
{
    !k.is_empty() && k.to_owned() != DEFAULT_API_KEY.to_owned()
}

/// Puts the user's own key, if any, ahead of the server's pool.
pub fn pool_with_user_key(keys: Vec<String>, user_key: Option<String>) -> (r: Vec<String>)
    ensures
        match user_key {
            Some(k) => r@ == seq![k] + keys@,
            None => r@ == keys@,
        },
{
    let mut keys = keys;
    match user_key {
        Some(k) => {
            let ghost old_keys = keys@;
            keys.insert(0, k);
            assert(keys@ =~= seq![k] + old_keys);
        },
        None => {},
    }
    keys
}

} // verus!
