//! Key mapping: from the key codes of the windowing layer to lanes.

use vstd::prelude::*;
use crate::loops::{InputMsg, KeyState, RawInputMsg, RawKeyCode, MAX_LANES};

verus! {

/// Maps key codes to lanes.
pub struct KeyMap {
    /// The code of each lane, lane 0 first.
    codes: Vec<String>,
}

/// Lane that a list of codes gives to `key`: the position of `key` in the
/// list, the last one where it stands there more than once.
pub open spec fn lane_for(codes: Seq<Seq<char>>, key: Seq<char>) -> Option<int>
    decreases codes.len(),
{
    if codes.len() == 0 {
        None
    } else if codes.last() == key {
        Some(codes.len() - 1)
    } else {
        lane_for(codes.drop_last(), key)
    }
}

/// The codes that count: the first eight of the list.
pub open spec fn mapped_codes(key_codes: Seq<String>) -> Seq<Seq<char>> {
    Seq::new(
        if key_codes.len() < MAX_LANES {
            key_codes.len()
        } else {
            MAX_LANES as nat
        },
        |i: int| key_codes[i]@,
    )
}

/// What a raw message becomes under a list of codes.
pub open spec fn converted(codes: Seq<Seq<char>>, raw_msg: RawInputMsg) -> Option<InputMsg> {
    match raw_msg {
        RawInputMsg::Key { code, state } => match lane_for(codes, code.0@) {
            Some(lane) => Some(
                match state {
                    KeyState::Pressed => InputMsg::KeyDown(lane as usize),
                    KeyState::Released => InputMsg::KeyUp(lane as usize),
                },
            ),
            None => None,
        },
    }
}

/// A mapped key plays one of the lanes.
pub proof fn mapped_lane_exists(codes: Seq<Seq<char>>, key: Seq<char>)
    ensures
        match lane_for(codes, key) {
            Some(lane) => 0 <= lane < codes.len() && codes[lane] == key,
            None => forall|i: int| 0 <= i < codes.len() ==> codes[i] != key,
        },
    decreases codes.len(),
{
    if codes.len() > 0 && codes.last() != key {
        mapped_lane_exists(codes.drop_last(), key);
        assert forall|i: int| 0 <= i < codes.len() && lane_for(codes, key) is None implies codes[i]
            != key by {
            if i < codes.len() - 1 {
                assert(codes.drop_last()[i] == codes[i]);
            }
        }
    }
}

impl KeyMap {
    /// The code of each mapped lane, lane 0 first.
    pub closed spec fn view(&self) -> Seq<Seq<char>> {
        Seq::new(self.codes@.len(), |i: int| self.codes@[i]@)
    }

    /// Builds the mapping from the configured key codes, the code of lane 0
    /// first. Codes after the eighth are ignored.
    pub fn new(key_codes: Vec<String>) -> (map: Self)
        ensures
            map@ == mapped_codes(key_codes@),
            map@.len() <= MAX_LANES,
    {
        let mut codes: Vec<String> = Vec::new();
        let mut i: usize = 0;
        while i < key_codes.len() && i < MAX_LANES
            invariant
                i <= key_codes.len(),
                i <= MAX_LANES,
                codes@.len() == i,
                forall|j: int| 0 <= j < i ==> codes@[j] == key_codes@[j],
            decreases key_codes.len() - i,
        {
            codes.push(key_codes[i].clone());
            i += 1;
        }
        let map = KeyMap { codes };
        assert(map@ =~= mapped_codes(key_codes@));
        map
    }

    /// Lane of a key code, if the code is mapped.
    pub fn lane(&self, key: &String) -> (lane: Option<usize>)
        ensures
            match lane {
                Some(l) => lane_for(self@, key@) == Some(l as int),
                None => lane_for(self@, key@) is None,
            },
    {
        let mut i: usize = self.codes.len();
        assert(self@.take(i as int) =~= self@);
        while i > 0
            invariant
                i <= self.codes@.len(),
                lane_for(self@, key@) == lane_for(self@.take(i as int), key@),
            decreases i,
        {
            assert(self@.take(i as int).last() == self.codes@[i - 1]@);
            assert(self@.take(i as int).drop_last() =~= self@.take(i - 1));
            i -= 1;
            if self.codes[i] == *key {
                return Some(i);
            }
        }
        None
    }

    /// Turns raw input into a lane event; input from a key that is not
    /// mapped gives none.
    pub fn convert(&self, raw_msg: RawInputMsg) -> (msg: Option<InputMsg>)
        ensures
            msg == converted(self@, raw_msg),
    {
        self.convert_ref(&raw_msg)
    }

    /// Turns raw input into a lane event without taking it over.
    pub fn convert_ref(&self, raw_msg: &RawInputMsg) -> (msg: Option<InputMsg>)
        ensures
            msg == converted(self@, *raw_msg),
    {
        match raw_msg {
            RawInputMsg::Key { code, state } => {
                let RawKeyCode(key) = code;
                match self.lane(key) {
                    Some(lane) => {
                        match state {
                            KeyState::Pressed => Some(InputMsg::KeyDown(lane)),
                            KeyState::Released => Some(InputMsg::KeyUp(lane)),
                        }
                    },
                    None => None,
                }
            },
        }
    }
}

} // verus!
