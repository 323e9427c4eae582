//! Translation of local key events into the bytes sent to the shell.

use vstd::prelude::*;

verus! {

#[verifier::external_type_specification]
#[verifier::external_body]
pub struct ExKeyCode(terminput::KeyCode);

/// Cursor and page keys.
#[derive(Clone, Copy, Debug, PartialEq, Eq, Structural)]
pub enum NavKey {
    Left,
    Right,
    Up,
    Down,
    Home,
    End,
    PageUp,
    PageDown,
}

/// Editing keys.
#[derive(Clone, Copy, Debug, PartialEq, Eq, Structural)]
pub enum EditKey {
    Backspace,
    Enter,
    Tab,
    Delete,
    Insert,
    Esc,
}

/// The key of a key event. `Other` stands for the keys that have no xterm
/// encoding and no character (lock, media and modifier keys and the like).
#[derive(Clone, Copy, Debug, PartialEq, Eq, Structural)]
pub enum KeyCodeView {
    Char(char),
    F(u8),
    Nav(NavKey),
    Edit(EditKey),
    Other,
}

/// Whether a key went down, repeats or went up.
#[derive(Clone, Copy, Debug, PartialEq, Eq, Structural)]
pub enum KeyKind {
    Press,
    Repeat,
    Release,
}

/// A key event as plain values: the key, the modifiers held, and its kind.
#[derive(Clone, Copy, Debug, PartialEq, Eq, Structural)]
pub struct KeyView {
    pub code: KeyCodeView,
    pub shift: bool,
    pub alt: bool,
    pub ctrl: bool,
    pub super_key: bool,
    pub kind: KeyKind,
}

/// terminput's key code for the key `c`.
pub uninterp spec fn terminput_code(c: KeyCodeView) -> terminput::KeyCode;

/// The xterm encoding of a key press, `None` where it has none.
pub uninterp spec fn xterm_encoding(k: KeyView) -> Option<Seq<u8>>;

/// The low byte of a character's code point.
pub open spec fn low_byte(c: char) -> u8 {
    ((c as u32) % 256) as u8
}

/// Keys handed to the xterm encoder: presses of keys it knows, but for
/// Control with a character whose code point ends in the byte `0xFF`, which
/// the encoder's arithmetic does not handle. The encoder refuses repeats and
/// releases, so these take the fallback too.
pub open spec fn encodable(k: KeyView) -> bool {
    &&& k.kind is Press
    &&& !(k.code is Other)
    &&& !(k.ctrl && (k.code matches KeyCodeView::Char(c) && low_byte(c) == 0xFF))
}

/// Relies on the variant `terminput::KeyCode::Char`.
#[verifier::external_body]
fn char_code(c: char) -> (r: terminput::KeyCode)
    ensures
        r == terminput_code(KeyCodeView::Char(c)),
{
    terminput::KeyCode::Char(c)
}

/// Relies on the variant `terminput::KeyCode::F`.
#[verifier::external_body]
fn function_code(n: u8) -> (r: terminput::KeyCode)
    ensures
        r == terminput_code(KeyCodeView::F(n)),
{
    terminput::KeyCode::F(n)
}

/// Relies on the variants of `terminput::KeyCode` of the same names.
#[verifier::external_body]
fn nav_code(n: NavKey) -> (r: terminput::KeyCode)
    ensures
        r == terminput_code(KeyCodeView::Nav(n)),
{
    match n {
        NavKey::Left => terminput::KeyCode::Left,
        NavKey::Right => terminput::KeyCode::Right,
        NavKey::Up => terminput::KeyCode::Up,
        NavKey::Down => terminput::KeyCode::Down,
        NavKey::Home => terminput::KeyCode::Home,
        NavKey::End => terminput::KeyCode::End,
        NavKey::PageUp => terminput::KeyCode::PageUp,
        NavKey::PageDown => terminput::KeyCode::PageDown,
    }
}

/// Relies on the variants of `terminput::KeyCode` of the same names.
#[verifier::external_body]
fn edit_code(e: EditKey) -> (r: terminput::KeyCode)
    ensures
        r == terminput_code(KeyCodeView::Edit(e)),
{
    match e {
        EditKey::Backspace => terminput::KeyCode::Backspace,
        EditKey::Enter => terminput::KeyCode::Enter,
        EditKey::Tab => terminput::KeyCode::Tab,
        EditKey::Delete => terminput::KeyCode::Delete,
        EditKey::Insert => terminput::KeyCode::Insert,
        EditKey::Esc => terminput::KeyCode::Esc,
    }
}

/// Relies on `terminput::Event::encode` with `Encoding::Xterm`, into a
/// 16-byte buffer, of the key press with key `code` and the modifiers of
/// `k`: the bytes written, or `None` where the press has no encoding.
#[verifier::external_body]
fn encode_xterm(k: KeyView, code: terminput::KeyCode) -> (r: Option<Vec<u8>>)
    requires
        encodable(k),
        code == terminput_code(k.code),
    ensures
        r matches Some(b) ==> xterm_encoding(k) == Some(b@) && b@.len() <= 16,
        r is None ==> xterm_encoding(k) is None,
{
    let mut modifiers = terminput::KeyModifiers::empty();
    modifiers.set(terminput::KeyModifiers::SHIFT, k.shift);
    modifiers.set(terminput::KeyModifiers::ALT, k.alt);
    modifiers.set(terminput::KeyModifiers::CTRL, k.ctrl);
    modifiers.set(terminput::KeyModifiers::SUPER, k.super_key);
    let event = terminput::Event::Key(terminput::KeyEvent::new(code).modifiers(modifiers));
    let mut buf = [0u8; 16];
    match event.encode(&mut buf, terminput::Encoding::Xterm) {
        Ok(n) => Some(buf[..n].to_vec()),
        Err(_) => None,
    }
}

/// The minimal encoding of a key: a character key gives the low byte of its
/// code point, masked to a control character when Control is held; any other
/// key gives nothing.
pub open spec fn fallback_spec(k: KeyView) -> Option<Seq<u8>> {
    match k.code {
        KeyCodeView::Char(c) => if k.ctrl {
            Some(seq![low_byte(c) & 0x1f])
        } else {
            Some(seq![low_byte(c)])
        },
        _ => None,
    }
}

/// The bytes sent for a key: its xterm encoding where it has one, the
/// minimal encoding otherwise.
pub open spec fn key_bytes_spec(k: KeyView) -> Option<Seq<u8>> {
    if encodable(k) && xterm_encoding(k) is Some {
        xterm_encoding(k)
    } else {
        fallback_spec(k)
    }
}

/// The minimal encoding of a key, used where the terminal encoding has none.
pub fn fallback_bytes(k: KeyView) -> (r: Option<Vec<u8>>)
    ensures
        r matches Some(b) ==> fallback_spec(k) == Some(b@),
        r is None ==> fallback_spec(k) is None,
{
    match k.code {
        KeyCodeView::Char(c) => {
            let b: u8 = ((c as u32) % 256) as u8;
            if k.ctrl {
                Some(vec![b & 0x1f])
            } else {
                Some(vec![b])
            }
        },
        _ => None,
    }
}

/// The bytes for a key given its terminal encoding, if it has one: that
/// encoding, or else the fallback encoding.
pub fn choose_key_bytes(encoded: Option<Vec<u8>>, k: KeyView) -> (r: Option<Vec<u8>>)
    ensures
        encoded is Some ==> r == encoded,
        encoded is None ==> (r matches Some(b) ==> fallback_spec(k) == Some(b@)) && (r is None
            ==> fallback_spec(k) is None),
{
    match encoded {
        Some(b) => Some(b),
        None => fallback_bytes(k),
    }
}

/// The bytes written to the shell for a local key event.
pub fn key_bytes(k: KeyView) -> (r: Option<Vec<u8>>)
    ensures
        r matches Some(b) ==> key_bytes_spec(k) == Some(b@),
        r is None ==> key_bytes_spec(k) is None,
{
    let press = match k.kind {
        KeyKind::Press => true,
        _ => false,
    };
    let code = match k.code {
        KeyCodeView::Char(c) => if k.ctrl && ((c as u32) % 256) as u8 == 0xFF {
            None
        } else {
            Some(char_code(c))
        },
        KeyCodeView::F(n) => Some(function_code(n)),
        KeyCodeView::Nav(n) => Some(nav_code(n)),
        KeyCodeView::Edit(e) => Some(edit_code(e)),
        KeyCodeView::Other => None,
    };
    let encoded = match code {
        Some(c) => if press {
            encode_xterm(k, c)
        } else {
            None
        },
        None => None,
    };
    choose_key_bytes(encoded, k)
}

} // verus!
