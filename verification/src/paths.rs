//! Object-path recognition and construction.
//!
//! A media-player object for a device lives at the fixed path
//! `/org/bluez/hci0/dev_<segment>/player0`.  The recognizer decides
//! whether a discovery notification's path denotes such an object and, if
//! so, which device; the builder produces the path the subscription
//! factory must open for a device.

use vstd::prelude::*;

use crate::address::DeviceAddress;
use crate::address::lemma_segment_form_round_trip;
use crate::address::segment_well_formed;
use crate::address::spec_decode;
use crate::address::spec_segment_form;

verus! {

/// The fixed adapter path prefix, `/org/bluez/hci0/`.
pub open spec fn adapter_prefix_chars() -> Seq<char> {
    seq!['/', 'o', 'r', 'g', '/', 'b', 'l', 'u', 'e', 'z', '/', 'h', 'c', 'i', '0', '/']
}

/// The terminal segment of a media-player object path, `/player0`.
pub open spec fn player_suffix_chars() -> Seq<char> {
    seq!['/', 'p', 'l', 'a', 'y', 'e', 'r', '0']
}

/// A path that denotes a media-player object: the adapter prefix, then a
/// well-formed device segment, then the player terminal segment.
pub open spec fn recognized_player_path(p: Seq<char>) -> bool {
    p.len() == 45 && p.subrange(0, 16) == adapter_prefix_chars() && p.subrange(37, 45)
        == player_suffix_chars() && segment_well_formed(p.subrange(16, 37))
}

/// The device a recognized player path belongs to.
pub open spec fn spec_path_target(p: Seq<char>) -> DeviceAddress {
    spec_decode(p.subrange(16, 37))
}

/// The media-player object path for a device.
pub open spec fn spec_player_path(a: DeviceAddress) -> Seq<char> {
    adapter_prefix_chars() + spec_segment_form(a) + player_suffix_chars()
}

/// Decides whether an object path denotes a media-player object and, if
/// so, which device.  Paths of any other shape — a different terminal
/// segment, a different prefix, or a malformed device segment — yield
/// `None` and are to be ignored by the caller.
pub fn player_target(path: &str) -> (r: Option<DeviceAddress>)
    ensures
        r is Some <==> recognized_player_path(path@),
        r matches Some(a) ==> a == spec_path_target(path@),
{
    let prefix = "/org/bluez/hci0/";
    let suffix = "/player0";
    proof {
        reveal_strlit("/org/bluez/hci0/");
        reveal_strlit("/player0");
        assert(prefix@ =~= adapter_prefix_chars());
        assert(suffix@ =~= player_suffix_chars());
    }
    let n = path.unicode_len();
    if n != 45 {
        return None;
    }
    let mut i: usize = 0;
    while i < 16
        invariant
            0 <= i <= 16,
            path@.len() == 45,
            prefix@ == adapter_prefix_chars(),
            forall|j: int| 0 <= j < i ==> path@[j] == adapter_prefix_chars()[j],
        decreases 16 - i,
    {
        if path.get_char(i) != prefix.get_char(i) {
            proof {
                assert(path@.subrange(0, 16)[i as int] != adapter_prefix_chars()[i as int]);
            }
            return None;
        }
        i = i + 1;
    }
    let mut j: usize = 0;
    while j < 8
        invariant
            0 <= j <= 8,
            path@.len() == 45,
            suffix@ == player_suffix_chars(),
            forall|k: int| 0 <= k < j ==> path@[37 + k] == player_suffix_chars()[k],
        decreases 8 - j,
    {
        if path.get_char(37 + j) != suffix.get_char(j) {
            proof {
                assert(path@.subrange(37, 45)[j as int] != player_suffix_chars()[j as int]);
            }
            return None;
        }
        j = j + 1;
    }
    proof {
        assert(path@.subrange(0, 16) =~= adapter_prefix_chars());
        assert(path@.subrange(37, 45) =~= player_suffix_chars());
    }
    let segment = path.substring_char(16, 37);
    match DeviceAddress::parse(segment) {
        Ok(a) => Some(a),
        Err(_) => None,
    }
}

/// Builds the media-player object path for a device:
/// `/org/bluez/hci0/dev_<segment>/player0`.  The result is itself
/// recognized and points back at the same device.
pub fn player_path(addr: &DeviceAddress) -> (r: String)
    ensures
        r@ == spec_player_path(*addr),
        recognized_player_path(r@),
        spec_path_target(r@) == *addr,
{
    let prefix = "/org/bluez/hci0/";
    let suffix = "/player0";
    proof {
        reveal_strlit("/org/bluez/hci0/");
        reveal_strlit("/player0");
        assert(prefix@ =~= adapter_prefix_chars());
        assert(suffix@ =~= player_suffix_chars());
    }
    let segment = addr.segment_string();
    let mut s = String::new();
    s.append(prefix);
    s.append(segment.as_str());
    s.append(suffix);
    proof {
        lemma_segment_form_round_trip(*addr);
        assert(s@ =~= spec_player_path(*addr));
        assert(s@.subrange(0, 16) =~= adapter_prefix_chars());
        assert(s@.subrange(37, 45) =~= player_suffix_chars());
        assert(s@.subrange(16, 37) =~= spec_segment_form(*addr));
    }
    s
}

} // verus!
