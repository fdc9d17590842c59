//! Masking of sensitive header values before they are logged.
use vstd::prelude::*;
use vstd::string::StrSliceExecFns;

verus! {

/// A bearer token is replaced by the environment variable's name; any other
/// header value passes through unchanged.
pub open spec fn masked(s: Seq<char>) -> Seq<char> {
    if s.len() >= 7 && s.subrange(0, 7) == "Bearer "@ {
        "Bearer $TOWER_ACCESS_TOKEN"@
    } else {
        s
    }
}

pub fn mask_auth_header(value: &str) -> (r: String)
    ensures
        r@ == masked(value@),
{
    let n = value.unicode_len();
    if n >= 7 {
        let is_bearer = value.get_char(0) == 'B' && value.get_char(1) == 'e' && value.get_char(2)
            == 'a' && value.get_char(3) == 'r' && value.get_char(4) == 'e' && value.get_char(5)
            == 'r' && value.get_char(6) == ' ';
        proof {
            reveal_strlit("Bearer ");
            if is_bearer {
                assert(value@.subrange(0, 7) =~= "Bearer "@);
            } else {
                if value@.subrange(0, 7) == "Bearer "@ {
                    assert(value@.subrange(0, 7)[0] == value@[0]);
                    assert(value@.subrange(0, 7)[1] == value@[1]);
                    assert(value@.subrange(0, 7)[2] == value@[2]);
                    assert(value@.subrange(0, 7)[3] == value@[3]);
                    assert(value@.subrange(0, 7)[4] == value@[4]);
                    assert(value@.subrange(0, 7)[5] == value@[5]);
                    assert(value@.subrange(0, 7)[6] == value@[6]);
                    assert(false);
                }
            }
        }
        if is_bearer {
            return "Bearer $TOWER_ACCESS_TOKEN".to_owned();
        }
    }
    value.to_owned()
}

} // verus!
