//! A one-line status bar: clock, shell, optional load, and the current
//! directory, laid out to the terminal's width.

use vstd::prelude::*;
use vstd::utf8::encode_utf8;
use crate::audit::is_digit;

verus! {

/// Hours and minutes as `HH:MM`.
pub open spec fn is_clock_text(c: Seq<char>) -> bool {
    &&& c.len() == 5
    &&& is_digit(c[0]) && is_digit(c[1]) && c[2] == ':' && is_digit(c[3]) && is_digit(c[4])
}

/// Relies on `chrono::Local::now`, formatted by `chrono::DateTime::format`
/// with `%H:%M`: the local wall-clock time as two zero-padded digits of
/// hours, a colon and two zero-padded digits of minutes.
#[verifier::external_body]
fn local_clock() -> (r: String)
    ensures
        is_clock_text(r@),
{
    chrono::Local::now().format("%H:%M").to_string()
}

/// `n` spaces.
pub open spec fn spaces(n: nat) -> Seq<char> {
    Seq::new(n, |i: int| ' ')
}

/// The characters of `s` after its last `/`, all of `s` when it has none.
pub open spec fn last_segment(s: Seq<char>) -> Seq<char>
    decreases s.len(),
{
    if s.len() == 0 {
        s
    } else if s.last() == '/' {
        Seq::empty()
    } else {
        last_segment(s.drop_last()).push(s.last())
    }
}

fn push_spaces(s: &mut String, n: usize)
    ensures
        final(s)@ == old(s)@ + spaces(n as nat),
{
    let mut i: usize = 0;
    while i < n
        invariant
            i <= n,
            s@ == old(s)@ + spaces(i as nat),
        decreases n - i,
    {
        proof {
            reveal_strlit(" ");
        }
        s.append(" ");
        i += 1;
        assert(s@ =~= old(s)@ + spaces(i as nat));
    }
}

/// Separator and folder sign recoloured: each `│` and each `📁` is wrapped in
/// its own colour, returning to the text colour after it.
pub open spec fn styled(s: Seq<char>) -> Seq<char>
    decreases s.len(),
{
    if s.len() == 0 {
        s
    } else {
        let c = s.last();
        let piece = if c == '│' {
            "\x1b[38;5;14m│\x1b[38;5;250m"@
        } else if c == '📁' {
            "\x1b[38;5;11m📁\x1b[38;5;250m"@
        } else {
            seq![c]
        };
        styled(s.drop_last()) + piece
    }
}

fn style_text(s: &str) -> (r: String)
    ensures
        r@ == styled(s@),
{
    let n = s.unicode_len();
    let mut r = String::new();
    let mut i: usize = 0;
    while i < n
        invariant
            i <= n,
            n == s@.len(),
            r@ == styled(s@.subrange(0, i as int)),
        decreases n - i,
    {
        let c = s.get_char(i);
        let ghost pre = s@.subrange(0, i + 1);
        assert(pre.drop_last() == s@.subrange(0, i as int));
        if c == '│' {
            r.append("\x1b[38;5;14m│\x1b[38;5;250m");
        } else if c == '📁' {
            r.append("\x1b[38;5;11m📁\x1b[38;5;250m");
        } else {
            let one = s.substring_char(i, i + 1);
            assert(one@ == seq![c]);
            r.append(one);
        }
        i += 1;
    }
    assert(s@.subrange(0, n as int) == s@);
    r
}

/// The length of `s` in UTF-8 bytes.
pub open spec fn byte_len(s: Seq<char>) -> usize {
    encode_utf8(s).len() as usize
}

/// The first index from `k` on where the rest of `dir` fits in `keep` bytes.
pub open spec fn fit_start(dir: Seq<char>, k: int, keep: usize) -> int
    decreases dir.len() - k,
{
    if 0 <= k < dir.len() && byte_len(dir.subrange(k, dir.len() as int)) > keep {
        fit_start(dir, k + 1, keep)
    } else {
        k
    }
}

/// The directory as shown within `max_len` bytes: whole when it fits, else
/// `...` and the longest end of it that fits in three bytes less.
pub open spec fn shown_directory(dir: Seq<char>, max_len: usize) -> Seq<char> {
    if byte_len(dir) > max_len {
        "..."@ + dir.subrange(fit_start(dir, 0, max_len.saturating_sub(3)), dir.len() as int)
    } else {
        dir
    }
}

#[derive(Debug, Clone)]
pub struct StatusBar {
    pub terminal_width: usize,
    pub current_time: String,
    pub shell_info: String,
    pub current_directory: String,
    pub system_load: Option<String>,
    pub enabled: bool,
}

impl StatusBar {
    /// The left part: time, shell and, when known, load, separated by ` │ `.
    pub open spec fn left_section(self) -> Seq<char> {
        let base = self.current_time@ + " │ "@ + self.shell_info@;
        match self.system_load {
            Some(load) => base + " │ "@ + load@,
            None => base,
        }
    }

    /// The bar's text: empty when disabled; otherwise the left part, padding
    /// spaces up to two bytes short of the width, and the folder sign with the
    /// directory, shortened from the left when the line would not fit.
    pub open spec fn rendered(self) -> Seq<char> {
        if !self.enabled {
            Seq::empty()
        } else {
            let left = self.left_section();
            let dir = self.current_directory@;
            let available = self.terminal_width.saturating_sub(2);
            let left_len = byte_len(left);
            let right_len = byte_len(dir).saturating_add(byte_len("📁 "@));
            let d = if left_len.saturating_add(right_len).saturating_add(3) > available {
                shown_directory(dir, available.saturating_sub(left_len.saturating_add(7)))
            } else {
                dir
            };
            let right = "📁 "@ + d;
            let padding = available.saturating_sub(left_len.saturating_add(byte_len(right)));
            left + spaces(padding as nat) + right
        }
    }

    /// An enabled bar, `terminal_width` wide, with nothing shown yet.
    pub fn new(terminal_width: usize) -> (r: StatusBar)
        ensures
            r.terminal_width == terminal_width,
            r.enabled,
            r.current_time@.len() == 0,
            r.shell_info@.len() == 0,
            r.current_directory@.len() == 0,
            r.system_load is None,
    {
        StatusBar {
            terminal_width,
            current_time: String::new(),
            shell_info: String::new(),
            current_directory: String::new(),
            system_load: None,
            enabled: true,
        }
    }

    /// Takes the new width and the current local time, after the clock sign.
    /// Shell, directory and load come from the caller, through the setters
    /// below, since reading them is the caller's I/O.
    pub fn update(&mut self, terminal_width: usize)
        ensures
            final(self).terminal_width == terminal_width,
            exists|c: Seq<char>| #![trigger is_clock_text(c)] is_clock_text(c) && final(self).current_time@ == "🕐 "@ + c,
            final(self).shell_info == old(self).shell_info,
            final(self).current_directory == old(self).current_directory,
            final(self).system_load == old(self).system_load,
            final(self).enabled == old(self).enabled,
    {
        self.terminal_width = terminal_width;
        let mut t = String::from_str("🕐 ");
        let clock = local_clock();
        t.append(clock.as_str());
        self.current_time = t;
    }

    /// Shows the shell named by the `SHELL` variable (`None` when unset):
    /// the part of its path after the last `/`, or `unknown`.
    pub fn update_shell_info(&mut self, shell_var: Option<String>)
        ensures
            shell_var matches Some(s) ==> final(self).shell_info@ == "🐚 "@ + last_segment(s@),
            shell_var is None ==> final(self).shell_info@ == "🐚 "@ + "unknown"@,
            final(self).terminal_width == old(self).terminal_width,
            final(self).current_time == old(self).current_time,
            final(self).current_directory == old(self).current_directory,
            final(self).system_load == old(self).system_load,
            final(self).enabled == old(self).enabled,
    {
        let mut info = String::from_str("🐚 ");
        match shell_var {
            Some(s) => {
                let n = s.as_str().unicode_len();
                let mut start: usize = n;
                assert(s@.subrange(0, n as int) == s@);
                assert(last_segment(s@) == last_segment(s@.subrange(0, n as int)) + s@.subrange(n as int, n as int));
                while start > 0 && s.as_str().get_char(start - 1) != '/'
                    invariant
                        n == s@.len(),
                        start <= n,
                        last_segment(s@) == last_segment(s@.subrange(0, start as int)) + s@.subrange(
                            start as int,
                            n as int,
                        ),
                    decreases start,
                {
                    let ghost pre = s@.subrange(0, start as int);
                    assert(pre.drop_last() == s@.subrange(0, start - 1));
                    assert(s@.subrange(start - 1, n as int) == seq![pre.last()] + s@.subrange(start as int, n as int));
                    start -= 1;
                }
                proof {
                    let pre = s@.subrange(0, start as int);
                    if start > 0 {
                        assert(pre.last() == '/');
                    }
                    assert(last_segment(pre).len() == 0);
                    assert(last_segment(s@) =~= s@.subrange(start as int, n as int));
                }
                info.append(s.as_str().substring_char(start, n));
            },
            None => {
                info.append("unknown");
            },
        }
        self.shell_info = info;
    }

    /// Shows the name of the current directory (`None` when it cannot be
    /// had), or `~`.
    pub fn update_current_directory(&mut self, name: Option<String>)
        ensures
            name matches Some(n) ==> final(self).current_directory@ == n@,
            name is None ==> final(self).current_directory@ == "~"@,
            final(self).terminal_width == old(self).terminal_width,
            final(self).current_time == old(self).current_time,
            final(self).shell_info == old(self).shell_info,
            final(self).system_load == old(self).system_load,
            final(self).enabled == old(self).enabled,
    {
        self.current_directory = match name {
            Some(n) => n,
            None => String::from_str("~"),
        };
    }

    /// Shows the system load already formatted by the caller, or none.
    pub fn update_system_load(&mut self, load: Option<String>)
        ensures
            final(self).system_load == load,
            final(self).terminal_width == old(self).terminal_width,
            final(self).current_time == old(self).current_time,
            final(self).shell_info == old(self).shell_info,
            final(self).current_directory == old(self).current_directory,
            final(self).enabled == old(self).enabled,
    {
        self.system_load = load;
    }

    fn left_text(&self) -> (r: String)
        ensures
            r@ == self.left_section(),
    {
        let mut r = self.current_time.clone();
        r.append(" │ ");
        r.append(self.shell_info.as_str());
        match &self.system_load {
            Some(load) => {
                r.append(" │ ");
                r.append(load.as_str());
            },
            None => {},
        }
        r
    }

    fn shortened_directory(&self, max_len: usize) -> (r: String)
        ensures
            r@ == shown_directory(self.current_directory@, max_len),
    {
        let dir = self.current_directory.as_str();
        if dir.len() > max_len {
            let keep = max_len.saturating_sub(3);
            let n = dir.unicode_len();
            let mut k: usize = 0;
            while k < n && dir.substring_char(k, n).len() > keep
                invariant
                    k <= n,
                    n == dir@.len(),
                    fit_start(dir@, k as int, keep) == fit_start(dir@, 0, keep),
                decreases n - k,
            {
                k += 1;
            }
            let mut r = String::from_str("...");
            r.append(dir.substring_char(k, n));
            r
        } else {
            self.current_directory.clone()
        }
    }

    /// The bar's text: empty when disabled; otherwise the left part, padding
    /// spaces, and the folder sign with the directory, shortened from the
    /// left when the line would not fit.
    pub fn render(&self) -> (r: String)
        ensures
            r@ == self.rendered(),
    {
        if !self.enabled {
            return String::new();
        }
        let left = self.left_text();
        let available = self.terminal_width.saturating_sub(2);
        let left_len = left.as_str().len();
        let right_len = self.current_directory.as_str().len().saturating_add("📁 ".len());
        let d = if left_len.saturating_add(right_len).saturating_add(3) > available {
            let max_dir_len = available.saturating_sub(left_len.saturating_add(7));
            self.shortened_directory(max_dir_len)
        } else {
            self.current_directory.clone()
        };
        let mut right = String::from_str("📁 ");
        right.append(d.as_str());
        let padding = available.saturating_sub(left_len.saturating_add(right.as_str().len()));
        let mut r = left;
        push_spaces(&mut r, padding);
        r.append(right.as_str());
        assert(r@ == self.rendered());
        r
    }

    /// The bar's text padded to the full width, recoloured, on a dark
    /// background; empty when disabled.
    pub fn render_with_style(&self) -> (r: String)
        ensures
            !self.enabled ==> r@.len() == 0,
            self.enabled ==> r@ == "\x1b[48;5;236m\x1b[38;5;250m"@ + styled(
                self.rendered() + spaces(self.terminal_width.saturating_sub(byte_len(self.rendered())) as nat),
            ) + "\x1b[0m"@,
    {
        if !self.enabled {
            return String::new();
        }
        let mut padded = self.render();
        let padding = self.terminal_width.saturating_sub(padded.as_str().len());
        let ghost content = padded@;
        push_spaces(&mut padded, padding);
        let body = style_text(padded.as_str());
        let mut r = String::from_str("\x1b[48;5;236m\x1b[38;5;250m");
        r.append(body.as_str());
        r.append("\x1b[0m");
        assert(r@ == "\x1b[48;5;236m\x1b[38;5;250m"@ + styled(content + spaces(padding as nat)) + "\x1b[0m"@);
        r
    }

    /// Enables or disables the bar.
    pub fn set_enabled(&mut self, enabled: bool)
        ensures
            final(self).enabled == enabled,
            final(self).terminal_width == old(self).terminal_width,
            final(self).current_time == old(self).current_time,
            final(self).shell_info == old(self).shell_info,
            final(self).current_directory == old(self).current_directory,
            final(self).system_load == old(self).system_load,
    {
        self.enabled = enabled;
    }

    /// Whether the bar is shown.
    pub fn is_enabled(&self) -> (r: bool)
        ensures
            r == self.enabled,
    {
        self.enabled
    }
}

} // verus!
