//! API key choice and display.

use vstd::prelude::*;
use vstd::string::StringExecFns;
use vstd::string::StringSliceAdditionalSpecFns;
use vstd::utf8::{decode_utf8, encode_utf8, is_char_boundary};

use crate::text::push_char;

verus! {

broadcast use vstd::utf8::encode_utf8_decode_utf8;

/// Whether `key[..4]` and `key[len - 4..]` fall on character boundaries when
/// the key is longer than eight bytes (otherwise slicing it would panic).
pub open spec fn mask_is_safe_spec(key: &str) -> bool {
    key.len() > 8 ==> is_char_boundary(key.spec_bytes(), 4) && is_char_boundary(
        key.spec_bytes(),
        key.len() - 4,
    )
}

/// A key shown masked: eight bytes or fewer become one `*` per byte; a longer
/// key shows its first four bytes, `...`, and its last four bytes.
pub open spec fn mask_key_spec(key: &str) -> Seq<char> {
    let b = key.spec_bytes();
    let n = key.len() as int;
    if n <= 8 {
        Seq::new(n as nat, |i: int| '*')
    } else {
        decode_utf8(b.subrange(0, 4)) + "..."@ + decode_utf8(b.subrange(n - 4, b.len() as int))
    }
}

/// Whether [`mask_key`] can cut `key` where it cuts.
pub fn mask_is_safe(key: &str) -> (r: bool)
    ensures
        r == mask_is_safe_spec(key),
{
    let n = key.len();
    n <= 8 || (key.is_char_boundary(4) && key.is_char_boundary(n - 4))
}

/// Masks an API key for display.
pub fn mask_key(key: &str) -> (r: String)
    requires
        mask_is_safe_spec(key),
    ensures
        r@ == mask_key_spec(key),
{
    let n = key.len();
    if n <= 8 {
        let mut r = String::new();
        let mut i: usize = 0;
        while i < n
            invariant
                i <= n,
                r@ == Seq::new(i as nat, |k: int| '*'),
            decreases n - i,
        {
            push_char(&mut r, '*');
            i = i + 1;
            assert(r@ =~= Seq::new(i as nat, |k: int| '*'));
        }
        assert(r@ =~= mask_key_spec(key));
        return r;
    }
    let (head, _) = key.split_at(4);
    let (_, tail) = key.split_at(n - 4);
    let mut r = String::from_str(head);
    r.append("...");
    r.append(tail);
    proof {
        assert(head@ == decode_utf8(encode_utf8(head@)));
        assert(tail@ == decode_utf8(encode_utf8(tail@)));
    }
    r
}

/// The report when neither the keyring nor the environment has the key.
pub open spec fn missing_key_message(service: Seq<char>, env_var: Seq<char>) -> Seq<char> {
    "API key not found: keyring service '"@ + service + "' and env var '"@ + env_var
        + "' are both unavailable"@
}

/// The API key to use: the keyring's when it has one, else the environment
/// variable's, else an error naming both places.
pub fn select_api_key(
    service: &str,
    env_var: &str,
    keyring_key: Option<String>,
    env_key: Option<String>,
) -> (r: Result<String, String>)
    ensures
        match keyring_key {
            Some(k) => r matches Ok(x) && x@ == k@,
            None => match env_key {
                Some(k) => r matches Ok(x) && x@ == k@,
                None => r matches Err(m) && m@ == missing_key_message(service@, env_var@),
            },
        },
{
    match keyring_key {
        Some(k) => Ok(k),
        None => match env_key {
            Some(k) => Ok(k),
            None => {
                let mut m = String::from_str("API key not found: keyring service '");
                m.append(service);
                m.append("' and env var '");
                m.append(env_var);
                m.append("' are both unavailable");
                Err(m)
            },
        },
    }
}

} // verus!
