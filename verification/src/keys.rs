//! Keyboard bindings and the set of held camera keys.

use vstd::prelude::*;

verus! {

/// One of the twelve camera keys, listed in the order in which a tick serves them.
#[derive(Clone, Copy, Debug, PartialEq, Eq, Structural)]
pub enum Key {
    W,
    S,
    A,
    D,
    Q,
    E,
    I,
    K,
    J,
    L,
    U,
    O,
}

impl Key {
    /// The capital letter that names this key.
    pub open spec fn letter(self) -> char {
        match self {
            Key::W => 'W',
            Key::S => 'S',
            Key::A => 'A',
            Key::D => 'D',
            Key::Q => 'Q',
            Key::E => 'E',
            Key::I => 'I',
            Key::K => 'K',
            Key::J => 'J',
            Key::L => 'L',
            Key::U => 'U',
            Key::O => 'O',
        }
    }
}

/// What a key of the keyboard is bound to.
#[derive(Clone, Copy, Debug, PartialEq, Eq, Structural)]
pub enum Binding {
    /// Switches the body between solid and wireframe display.
    Wireframe,
    /// Moves or turns the camera for as long as the key is held.
    Camera(Key),
}

impl Binding {
    /// The capital letter that names the bound key.
    pub open spec fn letter(self) -> char {
        match self {
            Binding::Wireframe => 'V',
            Binding::Camera(key) => key.letter(),
        }
    }

    /// The code under which the host reports the bound key: `Key` and its letter.
    pub open spec fn code(self) -> Seq<char> {
        seq!['K', 'e', 'y', self.letter()]
    }
}

/// The binding named by a capital letter, if it names one.
pub open spec fn letter_binding(c: char) -> Option<Binding> {
    if c == 'V' {
        Some(Binding::Wireframe)
    } else if c == 'W' {
        Some(Binding::Camera(Key::W))
    } else if c == 'S' {
        Some(Binding::Camera(Key::S))
    } else if c == 'A' {
        Some(Binding::Camera(Key::A))
    } else if c == 'D' {
        Some(Binding::Camera(Key::D))
    } else if c == 'Q' {
        Some(Binding::Camera(Key::Q))
    } else if c == 'E' {
        Some(Binding::Camera(Key::E))
    } else if c == 'I' {
        Some(Binding::Camera(Key::I))
    } else if c == 'K' {
        Some(Binding::Camera(Key::K))
    } else if c == 'J' {
        Some(Binding::Camera(Key::J))
    } else if c == 'L' {
        Some(Binding::Camera(Key::L))
    } else if c == 'U' {
        Some(Binding::Camera(Key::U))
    } else if c == 'O' {
        Some(Binding::Camera(Key::O))
    } else {
        None
    }
}

/// The binding of a key code: four characters, `Key` and then the letter of a
/// bound key. Every other code is unbound.
pub open spec fn binding_for(code: Seq<char>) -> Option<Binding> {
    if code.len() == 4 && code[0] == 'K' && code[1] == 'e' && code[2] == 'y' {
        letter_binding(code[3])
    } else {
        None
    }
}

/// A binding is found again from its own code.
pub proof fn lemma_binding_of_own_code(binding: Binding)
    ensures
        binding_for(binding.code()) == Some(binding),
{
}

/// A code is bound only to the binding whose code it is, so no two bindings
/// share a code.
pub proof fn lemma_bound_code_is_own_code(code: Seq<char>, binding: Binding)
    requires
        binding_for(code) == Some(binding),
    ensures
        code == binding.code(),
{
    assert(code =~= binding.code());
}

/// Looks up the binding of a key code as the host reports it.
pub fn binding_of(code: &str) -> (found: Option<Binding>)
    ensures
        found == binding_for(code@),
{
    if code.unicode_len() != 4 {
        return None;
    }
    if code.get_char(0) != 'K' || code.get_char(1) != 'e' || code.get_char(2) != 'y' {
        return None;
    }
    let c: char = code.get_char(3);
    if c == 'V' {
        Some(Binding::Wireframe)
    } else if c == 'W' {
        Some(Binding::Camera(Key::W))
    } else if c == 'S' {
        Some(Binding::Camera(Key::S))
    } else if c == 'A' {
        Some(Binding::Camera(Key::A))
    } else if c == 'D' {
        Some(Binding::Camera(Key::D))
    } else if c == 'Q' {
        Some(Binding::Camera(Key::Q))
    } else if c == 'E' {
        Some(Binding::Camera(Key::E))
    } else if c == 'I' {
        Some(Binding::Camera(Key::I))
    } else if c == 'K' {
        Some(Binding::Camera(Key::K))
    } else if c == 'J' {
        Some(Binding::Camera(Key::J))
    } else if c == 'L' {
        Some(Binding::Camera(Key::L))
    } else if c == 'U' {
        Some(Binding::Camera(Key::U))
    } else if c == 'O' {
        Some(Binding::Camera(Key::O))
    } else {
        None
    }
}

/// The camera keys that are held down at the moment, one flag per key.
#[derive(Clone, Copy, Debug, PartialEq, Eq, Structural)]
pub struct KeysPressed {
    pub w: bool,
    pub s: bool,
    pub a: bool,
    pub d: bool,
    pub q: bool,
    pub e: bool,
    pub i: bool,
    pub k: bool,
    pub j: bool,
    pub l: bool,
    pub u: bool,
    pub o: bool,
}

impl View for KeysPressed {
    type V = Set<Key>;

    /// The set of keys that are held.
    open spec fn view(&self) -> Set<Key> {
        Set::new(|key: Key| self.held(key))
    }
}

impl KeysPressed {
    /// Whether `key` is held.
    pub open spec fn held(self, key: Key) -> bool {
        match key {
            Key::W => self.w,
            Key::S => self.s,
            Key::A => self.a,
            Key::D => self.d,
            Key::Q => self.q,
            Key::E => self.e,
            Key::I => self.i,
            Key::K => self.k,
            Key::J => self.j,
            Key::L => self.l,
            Key::U => self.u,
            Key::O => self.o,
        }
    }

    /// These keys with `key` held or released and every other key as it is.
    pub open spec fn with(self, key: Key, pressed: bool) -> KeysPressed {
        match key {
            Key::W => KeysPressed { w: pressed, ..self },
            Key::S => KeysPressed { s: pressed, ..self },
            Key::A => KeysPressed { a: pressed, ..self },
            Key::D => KeysPressed { d: pressed, ..self },
            Key::Q => KeysPressed { q: pressed, ..self },
            Key::E => KeysPressed { e: pressed, ..self },
            Key::I => KeysPressed { i: pressed, ..self },
            Key::K => KeysPressed { k: pressed, ..self },
            Key::J => KeysPressed { j: pressed, ..self },
            Key::L => KeysPressed { l: pressed, ..self },
            Key::U => KeysPressed { u: pressed, ..self },
            Key::O => KeysPressed { o: pressed, ..self },
        }
    }

    /// The value in which no key is held.
    pub open spec fn none() -> KeysPressed {
        KeysPressed {
            w: false,
            s: false,
            a: false,
            d: false,
            q: false,
            e: false,
            i: false,
            k: false,
            j: false,
            l: false,
            u: false,
            o: false,
        }
    }

    /// No key held.
    pub fn new() -> (keys: Self)
        ensures
            keys == KeysPressed::none(),
            keys@ == Set::<Key>::empty(),
    {
        KeysPressed {
            w: false,
            s: false,
            a: false,
            d: false,
            q: false,
            e: false,
            i: false,
            k: false,
            j: false,
            l: false,
            u: false,
            o: false,
        }
    }

    /// Tells whether `key` is held.
    pub fn is_held(&self, key: Key) -> (held: bool)
        ensures
            held == self.held(key),
            held == self@.contains(key),
    {
        match key {
            Key::W => self.w,
            Key::S => self.s,
            Key::A => self.a,
            Key::D => self.d,
            Key::Q => self.q,
            Key::E => self.e,
            Key::I => self.i,
            Key::K => self.k,
            Key::J => self.j,
            Key::L => self.l,
            Key::U => self.u,
            Key::O => self.o,
        }
    }

    /// Records that `key` went down or up. No other key changes.
    pub fn set(&mut self, key: Key, pressed: bool)
        ensures
            *final(self) == old(self).with(key, pressed),
            final(self)@ == if pressed {
                old(self)@.insert(key)
            } else {
                old(self)@.remove(key)
            },
    {
        let before = *self;
        *self = match key {
            Key::W => KeysPressed { w: pressed, ..before },
            Key::S => KeysPressed { s: pressed, ..before },
            Key::A => KeysPressed { a: pressed, ..before },
            Key::D => KeysPressed { d: pressed, ..before },
            Key::Q => KeysPressed { q: pressed, ..before },
            Key::E => KeysPressed { e: pressed, ..before },
            Key::I => KeysPressed { i: pressed, ..before },
            Key::K => KeysPressed { k: pressed, ..before },
            Key::J => KeysPressed { j: pressed, ..before },
            Key::L => KeysPressed { l: pressed, ..before },
            Key::U => KeysPressed { u: pressed, ..before },
            Key::O => KeysPressed { o: pressed, ..before },
        };
        proof {
            before.lemma_with_view(key, pressed);
        }
    }

    /// Pressing a key adds it to the held set, releasing it removes it.
    pub proof fn lemma_with_view(self, key: Key, pressed: bool)
        ensures
            self.with(key, pressed)@ == if pressed {
                self@.insert(key)
            } else {
                self@.remove(key)
            },
    {
        let after = self.with(key, pressed);
        assert forall|other: Key| after.held(other) == (if other == key {
            pressed
        } else {
            self.held(other)
        }) by {}
        if pressed {
            assert(after@ =~= self@.insert(key));
        } else {
            assert(after@ =~= self@.remove(key));
        }
    }

    /// The held set says everything: two values with the same set are equal.
    pub proof fn lemma_view_injective(self, other: KeysPressed)
        requires
            self@ == other@,
        ensures
            self == other,
    {
        assert forall|key: Key| self.held(key) == other.held(key) by {
            assert(self@.contains(key) == self.held(key));
            assert(other@.contains(key) == other.held(key));
        }
        assert(self.held(Key::W) == other.held(Key::W));
        assert(self.held(Key::S) == other.held(Key::S));
        assert(self.held(Key::A) == other.held(Key::A));
        assert(self.held(Key::D) == other.held(Key::D));
        assert(self.held(Key::Q) == other.held(Key::Q));
        assert(self.held(Key::E) == other.held(Key::E));
        assert(self.held(Key::I) == other.held(Key::I));
        assert(self.held(Key::K) == other.held(Key::K));
        assert(self.held(Key::J) == other.held(Key::J));
        assert(self.held(Key::L) == other.held(Key::L));
        assert(self.held(Key::U) == other.held(Key::U));
        assert(self.held(Key::O) == other.held(Key::O));
    }
}

} // verus!
