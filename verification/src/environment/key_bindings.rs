use bidir_map::BidirMap;
use vstd::prelude::*;

verus! {

/// Keycode of the D key, as the windowing layer reports it.
pub const KEY_D: u32 = 100;

/// Keycode of the E key.
pub const KEY_E: u32 = 101;

/// Keycode of the F key.
pub const KEY_F: u32 = 102;

/// Keycode of the I key.
pub const KEY_I: u32 = 105;

/// Keycode of the J key.
pub const KEY_J: u32 = 106;

/// Keycode of the K key.
pub const KEY_K: u32 = 107;

/// Keycode of the N key.
pub const KEY_N: u32 = 110;

/// Keycode of the R key.
pub const KEY_R: u32 = 114;

/// Keycode of the U key.
pub const KEY_U: u32 = 117;

/// Keycode of the V key.
pub const KEY_V: u32 = 118;

/// Keycode of the Return key.
pub const KEY_RETURN: u32 = 13;

/// Keycode of the Escape key.
pub const KEY_ESCAPE: u32 = 27;

/// The gameplay roles a physical input can be bound to.
#[allow(non_camel_case_types)]
#[derive(Hash, Debug, Copy, Clone, Eq, PartialEq, Structural)]
pub enum BindRoles {
    BT_A,
    BT_B,
    BT_C,
    BT_D,
    FX_L,
    FX_R,
    KN_L_CW,
    KN_L_CCW,
    KN_R_CW,
    KN_R_CCW,
    START,
    BACK,
}

/// A physical button, as delivered by the windowing layer and modelled by
/// its device kind and code.
#[derive(Hash, Debug, Copy, Clone, Eq, PartialEq, Structural)]
pub enum InputButton {
    Keyboard(u32),
    Controller(u8),
    Mouse(u8),
}

/// One physical input a binding can mention: a keyboard key by code, or a
/// controller button by number.
#[derive(Hash, Debug, Copy, Clone, Eq, PartialEq, Structural)]
pub enum GeneralizedKeystroke {
    Keyboard(u32),
    Controller(u8),
}

/// The keystroke a physical button corresponds to, if any: mouse buttons
/// take no part in bindings.
pub open spec fn button_keystroke(button: InputButton) -> Option<GeneralizedKeystroke> {
    match button {
        InputButton::Keyboard(k) => Some(GeneralizedKeystroke::Keyboard(k)),
        InputButton::Controller(c) => Some(GeneralizedKeystroke::Controller(c)),
        InputButton::Mouse(_) => None,
    }
}

/// A total order on keystrokes: keyboard keys by code first, then
/// controller buttons by number.
pub open spec fn ks_code(k: GeneralizedKeystroke) -> int {
    match k {
        GeneralizedKeystroke::Keyboard(code) => code as int,
        GeneralizedKeystroke::Controller(button) => 4294967296 + button,
    }
}

impl GeneralizedKeystroke {
    /// The keystroke's position in the total order.
    fn code(&self) -> (r: u64)
        ensures
            r == ks_code(*self),
    {
        match self {
            GeneralizedKeystroke::Keyboard(code) => *code as u64,
            GeneralizedKeystroke::Controller(button) => 4294967296u64 + (*button as u64),
        }
    }

    /// Whether this keystroke names the given physical button.
    pub fn is(&self, button: &InputButton) -> (r: bool)
        ensures
            r == match (*self, *button) {
                (GeneralizedKeystroke::Keyboard(k1), InputButton::Keyboard(k2)) => k1 == k2,
                (GeneralizedKeystroke::Controller(k), InputButton::Controller(c)) => k == c,
                _ => false,
            },
    {
        match (self, button) {
            (GeneralizedKeystroke::Keyboard(k1), InputButton::Keyboard(k2)) => k1 == k2,
            (GeneralizedKeystroke::Controller(k), InputButton::Controller(c)) => k == c,
            _ => false,
        }
    }

    /// The keystroke a physical button corresponds to, if it is one a
    /// binding can mention.
    pub fn from_button(button: &InputButton) -> (r: Option<GeneralizedKeystroke>)
        ensures
            r == button_keystroke(*button),
    {
        match button {
            InputButton::Keyboard(k) => Some(GeneralizedKeystroke::Keyboard(*k)),
            InputButton::Controller(c) => Some(GeneralizedKeystroke::Controller(*c)),
            InputButton::Mouse(_) => None,
        }
    }
}

/// A chord of one or more keystrokes, kept strictly sorted so that each
/// keystroke appears at most once.
#[derive(Debug, Eq, PartialEq, Hash, Clone)]
pub struct ComposedKeystroke(pub Vec<GeneralizedKeystroke>);

impl ComposedKeystroke {
    /// The keystrokes are strictly sorted by their order code.
    pub open spec fn wf(&self) -> bool {
        forall|i: int, j: int|
            0 <= i < j < self.0@.len() ==> ks_code(#[trigger] self.0@[i]) < ks_code(
                #[trigger] self.0@[j],
            )
    }

    /// Whether the chord mentions the keystroke.
    pub open spec fn has_key(&self, key: GeneralizedKeystroke) -> bool {
        exists|i: int| 0 <= i < self.0@.len() && self.0@[i] == key
    }

    /// A chord of a single keystroke.
    pub fn new(key: GeneralizedKeystroke) -> (r: ComposedKeystroke)
        ensures
            r.0@ =~= seq![key],
            r.wf(),
    {
        let mut v: Vec<GeneralizedKeystroke> = Vec::new();
        v.push(key);
        ComposedKeystroke(v)
    }

    /// Adds a keystroke to the chord; adding one already present changes
    /// nothing.
    pub fn add(&mut self, key: GeneralizedKeystroke)
        requires
            old(self).wf(),
        ensures
            final(self).wf(),
            final(self).has_key(key),
            forall|k2: GeneralizedKeystroke|
                #[trigger] final(self).has_key(k2) <==> (old(self).has_key(k2) || k2 == key),
    {
        let code: u64 = key.code();
        let n: usize = self.0.len();
        let mut lo: usize = 0;
        let mut hi: usize = n;
        while lo < hi
            invariant
                lo <= hi <= n,
                n == self.0@.len(),
                self.wf(),
                forall|k: int| 0 <= k < lo ==> ks_code(#[trigger] self.0@[k]) < code,
                forall|k: int| hi <= k < n ==> ks_code(#[trigger] self.0@[k]) >= code,
            decreases hi - lo,
        {
            let mid: usize = lo + (hi - lo) / 2;
            if self.0[mid].code() < code {
                lo = mid + 1;
            } else {
                hi = mid;
            }
        }
        if lo < n && self.0[lo].code() == code {
            proof {
                assert(ks_code(self.0@[lo as int]) == ks_code(key));
                assert(self.0@[lo as int] == key);
            }
            return ;
        }
        proof {
            assert(forall|a: GeneralizedKeystroke, b: GeneralizedKeystroke|
                ks_code(a) == ks_code(b) ==> a == b);
        }
        self.0.insert(lo, key);
        proof {
            let s = self.0@;
            let olds = old(self).0@;
            assert forall|i: int, j: int| 0 <= i < j < s.len() implies ks_code(#[trigger] s[i])
                < ks_code(#[trigger] s[j]) by {
                if j < lo {
                    assert(s[i] == olds[i] && s[j] == olds[j]);
                } else if j == lo {
                    assert(s[i] == olds[i]);
                } else if i < lo {
                    assert(s[j] == olds[j - 1]);
                    if i < lo {
                        assert(s[i] == olds[i]);
                    }
                } else if i == lo {
                    assert(s[j] == olds[j - 1]);
                } else {
                    assert(s[i] == olds[i - 1] && s[j] == olds[j - 1]);
                }
            }
            assert(final(self).has_key(key)) by {
                assert(s[lo as int] == key);
            }
            assert forall|k2: GeneralizedKeystroke| #[trigger]
                final(self).has_key(k2) <==> (old(self).has_key(k2) || k2 == key) by {
                if final(self).has_key(k2) {
                    let i = choose|i: int| 0 <= i < s.len() && s[i] == k2;
                    if i < lo {
                        assert(olds[i] == k2);
                    } else if i > lo {
                        assert(olds[i - 1] == k2);
                    }
                }
                if old(self).has_key(k2) {
                    let i = choose|i: int| 0 <= i < olds.len() && olds[i] == k2;
                    if i < lo {
                        assert(s[i] == k2);
                    } else {
                        assert(s[i + 1] == k2);
                    }
                }
                if k2 == key {
                    assert(s[lo as int] == k2);
                }
            }
        }
    }

    /// Whether the chord contains the keystroke.
    pub fn contains(&self, key: GeneralizedKeystroke) -> (r: bool)
        requires
            self.wf(),
        ensures
            r == self.has_key(key),
    {
        let code: u64 = key.code();
        let n: usize = self.0.len();
        let mut lo: usize = 0;
        let mut hi: usize = n;
        while lo < hi
            invariant
                lo <= hi <= n,
                n == self.0@.len(),
                self.wf(),
                forall|k: int| 0 <= k < lo ==> ks_code(#[trigger] self.0@[k]) < code,
                forall|k: int| hi <= k < n ==> ks_code(#[trigger] self.0@[k]) >= code,
            decreases hi - lo,
        {
            let mid: usize = lo + (hi - lo) / 2;
            if self.0[mid].code() < code {
                lo = mid + 1;
            } else {
                hi = mid;
            }
        }
        if lo < n && self.0[lo].code() == code {
            proof {
                assert(ks_code(self.0@[lo as int]) == ks_code(key));
                assert(self.0@[lo as int] == key);
            }
            true
        } else {
            proof {
                if self.has_key(key) {
                    let i = choose|i: int| 0 <= i < self.0@.len() && self.0@[i] == key;
                    assert(ks_code(self.0@[i]) == code);
                }
            }
            false
        }
    }
}

#[verifier::external_type_specification]
#[verifier::external_body]
#[verifier::reject_recursive_types(Kv1)]
#[verifier::reject_recursive_types(Kv2)]
pub struct ExBidirMap<Kv1: PartialEq, Kv2: PartialEq>(BidirMap<Kv1, Kv2>);

/// The pairs a binding map holds, in insertion order.
pub uninterp spec fn binding_pairs(m: BidirMap<BindRoles, ComposedKeystroke>) -> Seq<
    (BindRoles, ComposedKeystroke),
>;

/// Relies on `bidir_map::BidirMap::new`: a new map holds no pairs.
#[verifier::external_body]
fn kb_map_new() -> (r: BidirMap<BindRoles, ComposedKeystroke>)
    ensures
        binding_pairs(r) == Seq::<(BindRoles, ComposedKeystroke)>::empty(),
{
    BidirMap::new()
}

/// Relies on `bidir_map::BidirMap::insert`: when neither side of the new
/// pair is already present (the case this crate uses, and equality on both
/// sides is the derived structural one), the pair is appended to the map's
/// backing vector.
#[verifier::external_body]
fn kb_map_insert(
    m: &mut BidirMap<BindRoles, ComposedKeystroke>,
    role: BindRoles,
    keystroke: ComposedKeystroke,
)
    requires
        forall|i: int|
            0 <= i < binding_pairs(*old(m)).len() ==> (#[trigger] binding_pairs(*old(m))[i]).0
                != role && binding_pairs(*old(m))[i].1 != keystroke,
    ensures
        binding_pairs(*final(m)) == binding_pairs(*old(m)).push((role, keystroke)),
{
    m.insert(role, keystroke);
}

/// The keystroke of the first pair naming the role, if any.
pub open spec fn lookup_role(
    pairs: Seq<(BindRoles, ComposedKeystroke)>,
    role: BindRoles,
) -> Option<ComposedKeystroke>
    decreases pairs.len(),
{
    if pairs.len() == 0 {
        None
    } else if pairs[0].0 == role {
        Some(pairs[0].1)
    } else {
        lookup_role(pairs.subrange(1, pairs.len() as int), role)
    }
}

/// Relies on `bidir_map::BidirMap::get_by_first`: finds the first pair whose
/// first side equals the key, under the derived structural equality.
#[verifier::external_body]
fn kb_map_get_by_first<'a>(
    m: &'a BidirMap<BindRoles, ComposedKeystroke>,
    role: &BindRoles,
) -> (r: Option<&'a ComposedKeystroke>)
    ensures
        r matches Some(ks) ==> lookup_role(binding_pairs(*m), *role) == Some(*ks),
        r is None ==> lookup_role(binding_pairs(*m), *role) is None,
{
    m.get_by_first(role)
}

/// The keystroke bound to a role in the map, if any.
pub fn binding_for<'a>(
    m: &'a BidirMap<BindRoles, ComposedKeystroke>,
    role: &BindRoles,
) -> (r: Option<&'a ComposedKeystroke>)
    ensures
        r matches Some(ks) ==> lookup_role(binding_pairs(*m), *role) == Some(*ks),
        r is None ==> lookup_role(binding_pairs(*m), *role) is None,
{
    kb_map_get_by_first(m, role)
}

/// The stock keyboard layout, as the pairs of a binding map: one key per
/// role, in this fixed order.
pub open spec fn default_binding_layout(ps: Seq<(BindRoles, ComposedKeystroke)>) -> bool {
    &&& ps.len() == 12
    &&& ps[0].0 == BindRoles::BT_A && ps[0].1.0@ == seq![GeneralizedKeystroke::Keyboard(KEY_D)]
    &&& ps[1].0 == BindRoles::BT_B && ps[1].1.0@ == seq![GeneralizedKeystroke::Keyboard(KEY_F)]
    &&& ps[2].0 == BindRoles::BT_C && ps[2].1.0@ == seq![GeneralizedKeystroke::Keyboard(KEY_J)]
    &&& ps[3].0 == BindRoles::BT_D && ps[3].1.0@ == seq![GeneralizedKeystroke::Keyboard(KEY_K)]
    &&& ps[4].0 == BindRoles::FX_L && ps[4].1.0@ == seq![GeneralizedKeystroke::Keyboard(KEY_V)]
    &&& ps[5].0 == BindRoles::FX_R && ps[5].1.0@ == seq![GeneralizedKeystroke::Keyboard(KEY_N)]
    &&& ps[6].0 == BindRoles::KN_L_CW && ps[6].1.0@ == seq![GeneralizedKeystroke::Keyboard(KEY_R)]
    &&& ps[7].0 == BindRoles::KN_L_CCW && ps[7].1.0@ == seq![GeneralizedKeystroke::Keyboard(KEY_E)]
    &&& ps[8].0 == BindRoles::KN_R_CW && ps[8].1.0@ == seq![GeneralizedKeystroke::Keyboard(KEY_I)]
    &&& ps[9].0 == BindRoles::KN_R_CCW && ps[9].1.0@ == seq![GeneralizedKeystroke::Keyboard(KEY_U)]
    &&& ps[10].0 == BindRoles::START && ps[10].1.0@ == seq![GeneralizedKeystroke::Keyboard(KEY_RETURN)]
    &&& ps[11].0 == BindRoles::BACK && ps[11].1.0@ == seq![GeneralizedKeystroke::Keyboard(KEY_ESCAPE)]
    &&& forall|i: int| 0 <= i < ps.len() ==> (#[trigger] ps[i]).1.wf()
}

/// The stock key assignment as a plain list: one keyboard key per role, in
/// the fixed order of the layout.
pub open spec fn layout_elements(l: Seq<(BindRoles, u32)>) -> bool {
    &&& l.len() == 12
    &&& l[0] == (BindRoles::BT_A, KEY_D)
    &&& l[1] == (BindRoles::BT_B, KEY_F)
    &&& l[2] == (BindRoles::BT_C, KEY_J)
    &&& l[3] == (BindRoles::BT_D, KEY_K)
    &&& l[4] == (BindRoles::FX_L, KEY_V)
    &&& l[5] == (BindRoles::FX_R, KEY_N)
    &&& l[6] == (BindRoles::KN_L_CW, KEY_R)
    &&& l[7] == (BindRoles::KN_L_CCW, KEY_E)
    &&& l[8] == (BindRoles::KN_R_CW, KEY_I)
    &&& l[9] == (BindRoles::KN_R_CCW, KEY_U)
    &&& l[10] == (BindRoles::START, KEY_RETURN)
    &&& l[11] == (BindRoles::BACK, KEY_ESCAPE)
}

/// In the stock key assignment no role and no key appears twice.
proof fn lemma_layout_distinct(l: Seq<(BindRoles, u32)>)
    requires
        layout_elements(l),
    ensures
        forall|i: int, j: int|
            0 <= i < j < l.len() ==> (#[trigger] l[i]).0 != (#[trigger] l[j]).0 && l[i].1
                != l[j].1,
{
}

impl BindRoles {
    /// The stock keyboard layout: one key per role.
    pub fn default_keyboard_binding() -> (r: BidirMap<BindRoles, ComposedKeystroke>)
        ensures
            default_binding_layout(binding_pairs(r)),
    {
        let mut layout: Vec<(BindRoles, u32)> = Vec::new();
        layout.push((BindRoles::BT_A, KEY_D));
        layout.push((BindRoles::BT_B, KEY_F));
        layout.push((BindRoles::BT_C, KEY_J));
        layout.push((BindRoles::BT_D, KEY_K));
        layout.push((BindRoles::FX_L, KEY_V));
        layout.push((BindRoles::FX_R, KEY_N));
        layout.push((BindRoles::KN_L_CW, KEY_R));
        layout.push((BindRoles::KN_L_CCW, KEY_E));
        layout.push((BindRoles::KN_R_CW, KEY_I));
        layout.push((BindRoles::KN_R_CCW, KEY_U));
        layout.push((BindRoles::START, KEY_RETURN));
        layout.push((BindRoles::BACK, KEY_ESCAPE));
        proof {
            assert(layout@[0] == (BindRoles::BT_A, KEY_D));
            assert(layout@[1] == (BindRoles::BT_B, KEY_F));
            assert(layout@[2] == (BindRoles::BT_C, KEY_J));
            assert(layout@[3] == (BindRoles::BT_D, KEY_K));
            assert(layout@[4] == (BindRoles::FX_L, KEY_V));
            assert(layout@[5] == (BindRoles::FX_R, KEY_N));
            assert(layout@[6] == (BindRoles::KN_L_CW, KEY_R));
            assert(layout@[7] == (BindRoles::KN_L_CCW, KEY_E));
            assert(layout@[8] == (BindRoles::KN_R_CW, KEY_I));
            assert(layout@[9] == (BindRoles::KN_R_CCW, KEY_U));
            assert(layout@[10] == (BindRoles::START, KEY_RETURN));
            assert(layout@[11] == (BindRoles::BACK, KEY_ESCAPE));
            assert(layout_elements(layout@));
        }
        let mut map = kb_map_new();
        let mut idx: usize = 0;
        while idx < layout.len()
            invariant
                idx <= layout@.len(),
                layout_elements(layout@),
                binding_pairs(map).len() == idx,
                forall|i: int|
                    0 <= i < idx ==> (#[trigger] binding_pairs(map)[i]).0 == layout@[i].0
                        && binding_pairs(map)[i].1.0@ == seq![
                        GeneralizedKeystroke::Keyboard(layout@[i].1),
                    ],
            decreases layout@.len() - idx,
        {
            let (role, key): (BindRoles, u32) = layout[idx];
            let ck = ComposedKeystroke::new(GeneralizedKeystroke::Keyboard(key));
            proof {
                lemma_layout_distinct(layout@);
                let ps = binding_pairs(map);
                assert forall|i: int| 0 <= i < ps.len() implies (#[trigger] ps[i]).0 != role
                    && ps[i].1 != ck by {
                    assert(layout@[i].0 != layout@[idx as int].0);
                    assert(layout@[i].1 != layout@[idx as int].1);
                    assert(ps[i].1.0@[0] == GeneralizedKeystroke::Keyboard(layout@[i].1));
                    assert(ck.0@[0] == GeneralizedKeystroke::Keyboard(key));
                    if ps[i].1 == ck {
                        assert(ps[i].1.0@ == ck.0@);
                    }
                }
            }
            let ghost ps_before = binding_pairs(map);
            kb_map_insert(&mut map, role, ck);
            proof {
                let ps = binding_pairs(map);
                assert(ps == ps_before.push((role, ck)));
                assert forall|i: int|
                    0 <= i < idx + 1 implies (#[trigger] ps[i]).0 == layout@[i].0 && ps[i].1.0@
                        == seq![GeneralizedKeystroke::Keyboard(layout@[i].1)] by {
                    if i < idx {
                        assert(ps[i] == ps_before[i]);
                    } else {
                        assert(ps[i] == (role, ck));
                    }
                }
            }
            idx = idx + 1;
        }
        proof {
            let ps = binding_pairs(map);
            assert forall|i: int| 0 <= i < ps.len() implies (#[trigger] ps[i]).1.wf() by {
                assert(ps[i].1.0@.len() == 1);
            }
            assert(default_binding_layout(ps));
        }
        map
    }
}

} // verus!
