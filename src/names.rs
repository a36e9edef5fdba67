use vstd::prelude::*;
use vstd::string::*;

verus! {

/// The name of the player's node.
pub open spec fn player_name() -> Seq<char> {
    seq!['P', 'l', 'a', 'y', 'e', 'r']
}

/// Whether `name` is the player's name.
pub fn is_player(name: &str) -> (r: bool)
    ensures
        r == (name@ == player_name()),
{
    let n = name.unicode_len();
    let r = n == 6 && name.get_char(0) == 'P' && name.get_char(1) == 'l' && name.get_char(2) == 'a'
        && name.get_char(3) == 'y' && name.get_char(4) == 'e' && name.get_char(5) == 'r';
    if r {
        assert(name@ =~= player_name());
    } else if n == 6 {
        assert(name@ != player_name()) by {
            if name@ == player_name() {
                assert(name@[0] == 'P' && name@[1] == 'l' && name@[2] == 'a' && name@[3] == 'y'
                    && name@[4] == 'e' && name@[5] == 'r');
            }
        }
    }
    r
}

} // verus!
