use vstd::prelude::*;
use vstd::pervasive::VecAdditionalExecFns;
use vstd::string::StrSliceExecFns;
use vstd::string::StringSliceAdditionalSpecFns;
use vstd::string::StringExecFns;

use crate::keyboard::{KeyInput, RawInput};
use crate::router::{InputTarget, RouteAction};

verus! {

/// The line buffer's fixed size, including the terminator slot that always
/// stays zero.
pub const LINE_CAPACITY: usize = 512;

/// The backspace byte, which edits the line instead of joining it.
pub const BACKSPACE_BYTE: u8 = 8;

/// The prefix of a byte sequence before its first zero: the part of the
/// line buffer that holds typed input.
pub open spec fn until_nul(s: Seq<u8>) -> Seq<u8>
    decreases s.len(),
{
    if s.len() == 0 {
        s
    } else if s[0] == 0 {
        Seq::empty()
    } else {
        seq![s[0]] + until_nul(s.drop_first())
    }
}

/// A typed line with its backspace bytes applied: each backspace removes
/// the character before it, if any.
pub open spec fn fold_backspaces(s: Seq<u8>) -> Seq<u8>
    decreases s.len(),
{
    if s.len() == 0 {
        s
    } else {
        let folded = fold_backspaces(s.drop_last());
        if s.last() == BACKSPACE_BYTE {
            if folded.len() == 0 {
                folded
            } else {
                folded.drop_last()
            }
        } else {
            folded.push(s.last())
        }
    }
}

pub open spec fn split_spaces_loop(s: Seq<u8>, piece: Seq<u8>, done: Seq<Seq<u8>>) -> Seq<Seq<u8>>
    decreases s.len(),
{
    if s.len() == 0 {
        done.push(piece)
    } else if s[0] == 32 {
        split_spaces_loop(s.drop_first(), Seq::empty(), done.push(piece))
    } else {
        split_spaces_loop(s.drop_first(), piece.push(s[0]), done)
    }
}

/// A byte sequence split at every space, empty pieces kept: what the
/// command line means as a name followed by arguments.
pub open spec fn split_spaces(s: Seq<u8>) -> Seq<Seq<u8>> {
    split_spaces_loop(s, Seq::empty(), Seq::empty())
}

/// The command-line input buffer: a fixed block of bytes filled from the
/// front, with a zero after the typed input, plus the cursor position.
/// The last slot is never written, so the typed input always ends before a
/// zero.
pub struct LineBuffer {
    bytes: Vec<u8>,
    index: u16,
}

impl LineBuffer {
    pub closed spec fn view(&self) -> Seq<u8> {
        self.bytes@
    }

    pub closed spec fn cursor(&self) -> u16 {
        self.index
    }

    pub open spec fn wf(&self) -> bool {
        &&& self@.len() == LINE_CAPACITY
        &&& self@[LINE_CAPACITY - 1] == 0
        &&& self.cursor() < LINE_CAPACITY
    }

    pub fn new() -> (r: LineBuffer)
        ensures
            r.wf(),
            r@ == Seq::<u8>::new(LINE_CAPACITY as nat, |i: int| 0u8),
            r.cursor() == 0,
    {
        let bytes = vec![0u8; LINE_CAPACITY];
        assert(bytes@ =~= Seq::<u8>::new(LINE_CAPACITY as nat, |i: int| 0u8));
        LineBuffer { bytes, index: 0 }
    }

    /// The position of the first zero: where the next typed byte lands.
    pub open spec fn spec_fill(s: Seq<u8>) -> int
        decreases s.len(),
    {
        if s.len() == 0 {
            0
        } else if s[0] == 0 {
            0
        } else {
            1 + Self::spec_fill(s.drop_first())
        }
    }

    proof fn lemma_fill_at(s: Seq<u8>, i: int)
        requires
            0 <= i < s.len(),
            s[i] == 0,
            forall|j: int| 0 <= j < i ==> s[j] != 0,
        ensures
            Self::spec_fill(s) == i,
        decreases i,
    {
        if i > 0 {
            Self::lemma_fill_at(s.drop_first(), i - 1);
        }
    }

    /// Find the first zero, which the well-formedness invariant guarantees
    /// exists.
    fn find_fill(&self) -> (r: usize)
        requires
            self.wf(),
        ensures
            r as int == Self::spec_fill(self@),
            r < LINE_CAPACITY,
            self@[r as int] == 0,
            forall|j: int| 0 <= j < r ==> self@[j] != 0,
    {
        let mut i: usize = 0;
        while i < LINE_CAPACITY - 1
            invariant
                self.wf(),
                i < LINE_CAPACITY,
                forall|j: int| 0 <= j < i ==> self@[j] != 0,
            decreases LINE_CAPACITY - i,
        {
            if self.bytes[i] == 0 {
                proof {
                    Self::lemma_fill_at(self@, i as int);
                }
                return i;
            }
            i = i + 1;
        }
        proof {
            Self::lemma_fill_at(self@, (LINE_CAPACITY - 1) as int);
        }
        LINE_CAPACITY - 1
    }

    /// The first zero comes no later than any zero.
    proof fn lemma_fill_le(s: Seq<u8>, i: int)
        requires
            0 <= i < s.len(),
            s[i] == 0,
        ensures
            Self::spec_fill(s) <= i,
        decreases i,
    {
        if i > 0 && s[0] != 0 {
            Self::lemma_fill_le(s.drop_first(), i - 1);
        }
    }

    /// What deleting at the cursor leaves: the byte under the cursor and
    /// the one before it are cleared, unless the cursor is at the front.
    pub open spec fn erase_model(s: Seq<u8>, idx: u16) -> Seq<u8> {
        if idx == 0 {
            s
        } else {
            s.update(idx as int, 0).update(idx as int - 1, 0)
        }
    }

    /// Delete the character before the cursor.  With the cursor at the
    /// front nothing happens.  Reports whether an erase should be echoed.
    pub fn backspace(&mut self) -> (erased: bool)
        requires
            old(self).wf(),
        ensures
            final(self).wf(),
            final(self)@ == Self::erase_model(old(self)@, old(self).cursor()),
            erased == (old(self).cursor() > 0),
            old(self).cursor() == 0 ==> final(self).cursor() == old(self).cursor(),
            old(self).cursor() > 0 ==> final(self).cursor() == old(self).cursor() - 1,
    {
        if self.index == 0 {
            return false;
        }
        let idx = self.index as usize;
        self.bytes.set(idx, 0);
        self.bytes.set(idx - 1, 0);
        self.index = self.index - 1;
        true
    }

    /// The one input `add_char` cannot take: a raw backspace whose inner
    /// delete leaves the buffer starting with a zero, so that there is no
    /// previous slot to clear.
    pub open spec fn add_char_panics(&self, key: KeyInput) -> bool {
        &&& key == KeyInput::Raw(RawInput::Backspace)
        &&& 0 < Self::spec_fill(self@) < LINE_CAPACITY - 1
        &&& Self::spec_fill(Self::erase_model(self@, self.cursor())) == 0
    }

    /// What one `add_char` leaves behind.  A full buffer (fill position
    /// at the terminator slot) ignores the key.  A character lands at the
    /// fill position; a raw backspace deletes at the cursor and then
    /// clears the slot before the new fill position; any other raw key is
    /// ignored.  Afterwards the cursor sits at the fill position.
    pub open spec fn add_char_model(pre: LineBuffer, post: LineBuffer, key: KeyInput) -> bool {
        let fz = Self::spec_fill(pre@);
        if fz == LINE_CAPACITY - 1 {
            post@ == pre@ && post.cursor() == pre.cursor()
        } else {
            &&& (match key {
                KeyInput::Char(c) => post@ == pre@.update(fz, ((c as u32) % 256) as u8),
                KeyInput::Raw(RawInput::Backspace) => if fz == 0 {
                    post@ == pre@
                } else {
                    post@ == ({
                        let mid = Self::erase_model(pre@, pre.cursor());
                        mid.update(Self::spec_fill(mid) - 1, 0)
                    })
                },
                KeyInput::Raw(_) => post@ == pre@,
            })
            &&& post.cursor() as int == Self::spec_fill(post@)
        }
    }

    /// Append or edit one decoded key, exactly as `add_char_model` says.
    pub fn add_char(&mut self, key: KeyInput)
        requires
            old(self).wf(),
            !old(self).add_char_panics(key),
        ensures
            final(self).wf(),
            Self::add_char_model(*old(self), *final(self), key),
    {
        let fz = self.find_fill();
        if fz == LINE_CAPACITY - 1 {
            return;
        }
        match key {
            KeyInput::Char(c) => {
                let b = ((c as u32) % 256) as u8;
                self.bytes.set(fz, b);
            },
            KeyInput::Raw(RawInput::Backspace) => {
                if fz > 0 {
                    self.backspace();
                    let fz1 = self.find_fill();
                    assert(fz1 > 0);
                    self.bytes.set(fz1 - 1, 0);
                }
            },
            KeyInput::Raw(_) => {},
        }
        proof {
            Self::lemma_fill_le(self@, (LINE_CAPACITY - 1) as int);
        }
        let nf = self.find_fill();
        self.index = nf as u16;
    }

    /// Clear the whole buffer and move the cursor to the front.
    pub fn reset(&mut self)
        ensures
            final(self).wf(),
            final(self)@ == Seq::<u8>::new(LINE_CAPACITY as nat, |i: int| 0u8),
            final(self).cursor() == 0,
    {
        *self = LineBuffer::new();
    }

    /// Read one buffered byte.
    pub fn byte_at(&self, i: usize) -> (r: u8)
        requires
            i < self@.len(),
        ensures
            r == self@[i as int],
    {
        self.bytes[i]
    }
}

/// One shell command: its invocation name and its help text.
pub struct Command {
    pub name: Vec<u8>,
    pub description: String,
}

impl Command {
    pub fn new(name: &str, description: &str) -> (r: Command)
        ensures
            r.name@ == name.spec_bytes(),
            r.description@ == description@,
    {
        Command { name: name.as_bytes_vec(), description: description.to_owned() }
    }
}

/// The command-line interface state: the device name shown in the prompt,
/// whether the command line owns the screen, the input line being edited,
/// and the registered commands.
pub struct Shell {
    device_name: String,
    active: bool,
    line: LineBuffer,
    commands: Vec<Command>,
}

impl Shell {
    /// The device name shown in the prompt.
    pub closed spec fn device(&self) -> Seq<char> {
        self.device_name@
    }

    /// Whether the command line currently owns the screen.
    pub closed spec fn spec_active(&self) -> bool {
        self.active
    }

    /// The input line being edited.
    pub closed spec fn buffer(&self) -> LineBuffer {
        self.line
    }

    /// The registered commands, in registration order.
    pub closed spec fn commands(&self) -> Seq<Command> {
        self.commands@
    }

    pub open spec fn wf(&self) -> bool {
        self.buffer().wf()
    }

    /// The registered commands, for listing them.
    pub fn command_list(&self) -> (r: &Vec<Command>)
        ensures
            r@ == self.commands(),
    {
        &self.commands
    }

    pub fn new() -> (r: Shell)
        ensures
            r.wf(),
            r.device() == "qemu"@,
            !r.spec_active(),
            r.commands() == Seq::<Command>::empty(),
            r.buffer()@ == Seq::<u8>::new(LINE_CAPACITY as nat, |i: int| 0u8),
            r.buffer().cursor() == 0,
    {
        Shell {
            device_name: String::from_str("qemu"),
            active: false,
            line: LineBuffer::new(),
            commands: Vec::new(),
        }
    }
}

/// The prompt: the device name followed by the fixed marker.
pub fn get_command_prefix(shell: &Shell) -> (r: String)
    ensures
        r@ == shell.device() + "@midas> "@,
{
    let mut prefix = String::new();
    prefix.append(shell.device_name.as_str());
    prefix.append("@midas> ");
    assert(prefix@ =~= shell.device() + "@midas> "@);
    prefix
}

/// Whether the command line owns the screen.
pub fn is_active(shell: &Shell) -> (r: bool)
    ensures
        r == shell.spec_active(),
{
    shell.active
}

/// Register one command at the end of the list.
pub fn add_command(shell: &mut Shell, command: Command)
    ensures
        final(shell).commands() == old(shell).commands().push(command),
        final(shell).device() == old(shell).device(),
        final(shell).spec_active() == old(shell).spec_active(),
        final(shell).buffer() == old(shell).buffer(),
{
    shell.commands.push(command);
}

/// Take keyboard focus for the command line.  The banner and prompt
/// output that accompanies this is the caller's concern.
pub fn show_intro(shell: &mut Shell, target: &mut InputTarget, _is_command: bool)
    ensures
        final(shell).spec_active(),
        *final(target) == InputTarget::Terminal,
        final(shell).commands() == old(shell).commands(),
        final(shell).device() == old(shell).device(),
        final(shell).buffer() == old(shell).buffer(),
{
    shell.active = true;
    *target = InputTarget::Terminal;
}

/// Register the built-in command set and take keyboard focus.
pub fn init(shell: &mut Shell, target: &mut InputTarget)
    ensures
        final(shell).spec_active(),
        *final(target) == InputTarget::Terminal,
        final(shell).device() == old(shell).device(),
        final(shell).buffer() == old(shell).buffer(),
        final(shell).commands().len() == old(shell).commands().len() + 12,
        forall|i: int|
            0 <= i < old(shell).commands().len() ==> final(shell).commands()[i] == old(
                shell,
            ).commands()[i],
        ({
            let base = old(shell).commands().len() as int;
            &&& final(shell).commands()[base + 0].name@ == "help".spec_bytes()
            &&& final(shell).commands()[base + 1].name@ == "midas".spec_bytes()
            &&& final(shell).commands()[base + 2].name@ == "clear".spec_bytes()
            &&& final(shell).commands()[base + 3].name@ == "echo".spec_bytes()
            &&& final(shell).commands()[base + 4].name@ == "based".spec_bytes()
            &&& final(shell).commands()[base + 5].name@ == "version".spec_bytes()
            &&& final(shell).commands()[base + 6].name@ == "rdvc".spec_bytes()
            &&& final(shell).commands()[base + 7].name@ == "credits".spec_bytes()
            &&& final(shell).commands()[base + 8].name@ == "vga".spec_bytes()
            &&& final(shell).commands()[base + 9].name@ == "tfrst".spec_bytes()
            &&& final(shell).commands()[base + 10].name@ == "rnd".spec_bytes()
            &&& final(shell).commands()[base + 11].name@ == "rndrg".spec_bytes()
        }),
{
    add_command(shell, Command::new("help", "Show this help message"));
    add_command(shell, Command::new("midas", "Shows the MidAS initialization screen."));
    add_command(shell, Command::new("clear", "Clear the screen"));
    add_command(shell, Command::new("echo", "Echoes the input"));
    add_command(shell, Command::new("based", "Prints cool stuff"));
    add_command(shell, Command::new("version", "Shows current Version"));
    add_command(shell, Command::new("rdvc", "Lets you change the name of the current device"));
    add_command(shell, Command::new("credits", "Shows who worked on the OS!"));
    add_command(shell, Command::new("vga", "Enables VGA Graphics Mode"));
    add_command(shell, Command::new("tfrst", "Triple Fault Reset (MAY CORRUPT HARDWARE)"));
    add_command(shell, Command::new("rnd", "Generates a random number"));
    add_command(shell, Command::new("rndrg", "Generates a random number in a range"));
    show_intro(shell, target, false);
}

/// The built-in command that brings the intro screen back.
pub fn cmd_show_intro(shell: &mut Shell, target: &mut InputTarget)
    ensures
        final(shell).spec_active(),
        *final(target) == InputTarget::Terminal,
        final(shell).commands() == old(shell).commands(),
        final(shell).device() == old(shell).device(),
        final(shell).buffer() == old(shell).buffer(),
{
    show_intro(shell, target, true);
}

/// Release keyboard focus: the command line goes inactive and decoded keys
/// stop being routed anywhere.
pub fn uninit(shell: &mut Shell, target: &mut InputTarget)
    ensures
        !final(shell).spec_active(),
        *final(target) == InputTarget::Nobody,
        final(shell).commands() == old(shell).commands(),
        final(shell).device() == old(shell).device(),
        final(shell).buffer() == old(shell).buffer(),
{
    shell.active = false;
    *target = InputTarget::Nobody;
}

/// Hand keyboard focus to the graphics page-navigation handler.
pub fn vga_graphics(shell: &mut Shell, target: &mut InputTarget)
    ensures
        !final(shell).spec_active(),
        *final(target) == InputTarget::GraphicMode,
        final(shell).commands() == old(shell).commands(),
        final(shell).device() == old(shell).device(),
        final(shell).buffer() == old(shell).buffer(),
{
    shell.active = false;
    *target = InputTarget::GraphicMode;
}

/// Change the device name shown in the prompt.
pub fn rename_device(shell: &mut Shell, name: &str)
    ensures
        final(shell).device() == name@,
        final(shell).commands() == old(shell).commands(),
        final(shell).spec_active() == old(shell).spec_active(),
        final(shell).buffer() == old(shell).buffer(),
{
    shell.device_name = String::from_str(name);
}

/// A submitted line, parsed: the command name, the argument pieces after
/// it, and the registry position of the named command, if it exists.
#[derive(Debug, PartialEq)]
pub struct ParsedLine {
    pub name: Vec<u8>,
    pub args: Vec<Vec<u8>>,
    pub command: Option<usize>,
}

/// What processing the buffered line does: the typed input (up to the
/// first zero) has its backspaces applied; an empty result changes
/// nothing and yields nothing; otherwise the input splits at spaces into
/// the command name and its arguments, the name is looked up, and the
/// buffer is cleared.
pub open spec fn process_model(pre: Shell, post: Shell, r: Option<ParsedLine>) -> bool {
    let cleaned = fold_backspaces(until_nul(pre.buffer()@));
    if cleaned.len() == 0 {
        r is None && post.buffer() == pre.buffer()
    } else {
        &&& r matches Some(p) && parsed_matches(p, cleaned, pre.commands())
        &&& post.buffer()@ == Seq::<u8>::new(LINE_CAPACITY as nat, |i: int| 0u8)
        &&& post.buffer().cursor() == 0
    }
}

/// Whether a parse result is the correct reading of a cleaned line
/// against a command list: the first space-separated piece is the name,
/// the rest are the arguments, and the registry position is the first
/// command with that name, if any.
pub open spec fn parsed_matches(p: ParsedLine, cleaned: Seq<u8>, commands: Seq<Command>) -> bool {
    let tokens = split_spaces(cleaned);
    &&& p.name@ == tokens[0]
    &&& p.args.deep_view() == tokens.drop_first()
    &&& match p.command {
        Some(i) => i < commands.len() && commands[i as int].name@ == tokens[0] && (forall|j: int|
            0 <= j < i ==> commands[j].name@ != tokens[0]),
        None => forall|j: int| 0 <= j < commands.len() ==> commands[j].name@ != tokens[0],
    }
}

/// Whether two byte vectors hold the same bytes.
fn bytes_equal(a: &Vec<u8>, b: &Vec<u8>) -> (r: bool)
    ensures
        r == (a@ == b@),
{
    if a.len() != b.len() {
        return false;
    }
    let mut i: usize = 0;
    while i < a.len()
        invariant
            a@.len() == b@.len(),
            i <= a@.len(),
            forall|j: int| 0 <= j < i ==> a@[j] == b@[j],
        decreases a@.len() - i,
    {
        if a[i] != b[i] {
            return false;
        }
        i = i + 1;
    }
    proof {
        assert(a@ =~= b@);
    }
    true
}

/// The first command with this name, scanning in registration order.
fn find_command(commands: &Vec<Command>, name: &Vec<u8>) -> (r: Option<usize>)
    ensures
        r matches Some(i) ==> i < commands@.len() && commands@[i as int].name@ == name@ && (forall|
            j: int,
        | 0 <= j < i ==> commands@[j].name@ != name@),
        r is None ==> forall|j: int| 0 <= j < commands@.len() ==> commands@[j].name@ != name@,
{
    let mut k: usize = 0;
    while k < commands.len()
        invariant
            k <= commands@.len(),
            forall|j: int| 0 <= j < k ==> commands@[j].name@ != name@,
        decreases commands@.len() - k,
    {
        if bytes_equal(&commands[k].name, name) {
            return Some(k);
        }
        k = k + 1;
    }
    None
}

/// The typed input is exactly the first `spec_fill` bytes.
proof fn lemma_until_nul_take(s: Seq<u8>)
    ensures
        0 <= LineBuffer::spec_fill(s) <= s.len(),
        until_nul(s) == s.take(LineBuffer::spec_fill(s)),
    decreases s.len(),
{
    if s.len() == 0 {
        assert(until_nul(s) =~= s.take(0));
    } else if s[0] == 0 {
        assert(until_nul(s) =~= s.take(0));
    } else {
        lemma_until_nul_take(s.drop_first());
        let f = LineBuffer::spec_fill(s.drop_first());
        assert(seq![s[0]] + s.drop_first().take(f) =~= s.take(f + 1));
        assert(until_nul(s) =~= s.take(LineBuffer::spec_fill(s)));
    }
}

/// Process the buffered line, exactly as `process_model` says: apply the
/// backspaces, and unless nothing is left, split the line into a name and
/// arguments, look the name up, and clear the buffer.  The caller
/// dispatches on the outcome and prints what the found or missing command
/// calls for.
pub fn process_command(shell: &mut Shell) -> (r: Option<ParsedLine>)
    requires
        old(shell).wf(),
    ensures
        final(shell).wf(),
        final(shell).device() == old(shell).device(),
        final(shell).spec_active() == old(shell).spec_active(),
        final(shell).commands() == old(shell).commands(),
        process_model(*old(shell), *final(shell), r),
{
    let fz = shell.line.find_fill();
    proof {
        lemma_until_nul_take(shell.line@);
    }
    // apply the backspaces to the typed input
    let mut cleaned: Vec<u8> = Vec::new();
    let mut i: usize = 0;
    while i < fz
        invariant
            shell.wf(),
            fz as int == LineBuffer::spec_fill(shell.line@),
            fz < LINE_CAPACITY,
            i <= fz,
            cleaned@ == fold_backspaces(shell.line@.take(i as int)),
        decreases fz - i,
    {
        let b = shell.line.byte_at(i);
        proof {
            assert(shell.line@.take(i + 1).drop_last() =~= shell.line@.take(i as int));
        }
        if b == BACKSPACE_BYTE {
            if cleaned.len() > 0 {
                cleaned.pop();
                proof {
                    assert(cleaned@ =~= fold_backspaces(shell.line@.take(i + 1)));
                }
            }
        } else {
            cleaned.push(b);
        }
        i = i + 1;
    }
    if cleaned.len() == 0 {
        return None;
    }
    // split at spaces into the name and the arguments
    let mut tokens: Vec<Vec<u8>> = Vec::new();
    let mut piece: Vec<u8> = Vec::new();
    let mut j: usize = 0;
    proof {
        assert(cleaned@.skip(0) =~= cleaned@);
        assert(tokens.deep_view() =~~= Seq::<Seq<u8>>::empty());
    }
    while j < cleaned.len()
        invariant
            j <= cleaned@.len(),
            split_spaces_loop(cleaned@.skip(j as int), piece@, tokens.deep_view()) == split_spaces(
                cleaned@,
            ),
        decreases cleaned@.len() - j,
    {
        let b = cleaned[j];
        proof {
            assert(cleaned@.skip(j as int).drop_first() =~= cleaned@.skip(j + 1));
        }
        let ghost pre_tokens = tokens.deep_view();
        if b == 32 {
            let done = piece;
            piece = Vec::new();
            tokens.push(done);
            proof {
                assert(tokens.deep_view() =~~= pre_tokens.push(done@));
            }
        } else {
            piece.push(b);
        }
        j = j + 1;
    }
    let ghost pre_tokens = tokens.deep_view();
    tokens.push(piece);
    proof {
        assert(tokens.deep_view() =~~= pre_tokens.push(piece@));
        assert(tokens.deep_view() == split_spaces(cleaned@));
    }
    // the name is the first piece; the rest are the arguments
    let ghost dv = tokens.deep_view();
    let name = tokens.remove(0);
    let args = tokens;
    proof {
        assert(name@ =~= dv[0]);
        assert(args.deep_view() =~~= dv.drop_first());
    }
    let command = find_command(&shell.commands, &name);
    shell.line.reset();
    Some(ParsedLine { name, args, command })
}

/// What the shell shows in response to one routed action.
#[derive(Debug, PartialEq)]
pub enum ShellEffect {
    /// Nothing visible.
    Quiet,
    /// The character is echoed.
    Echo(char),
    /// An erase is echoed for the deleted character.
    EraseEcho,
    /// The line was submitted: the parse outcome is carried along, and a
    /// fresh prompt is drawn in place of echoing the newline.
    PromptRedraw(Option<ParsedLine>),
}

/// Apply one routed action to the shell and say what to show: submit
/// processes the buffered line and asks for a prompt redraw instead of a
/// newline echo; erase deletes at the cursor and echoes an erase if
/// anything was deleted; an inserted character lands in the line buffer
/// and is echoed; a raw key is handed to the line editor with nothing
/// echoed; everything else leaves the shell untouched.
pub fn handle_action(shell: &mut Shell, action: RouteAction) -> (r: ShellEffect)
    requires
        old(shell).wf(),
        action matches RouteAction::InsertRaw(rk) ==> !old(shell).buffer().add_char_panics(
            KeyInput::Raw(rk),
        ),
    ensures
        final(shell).wf(),
        final(shell).device() == old(shell).device(),
        final(shell).spec_active() == old(shell).spec_active(),
        final(shell).commands() == old(shell).commands(),
        action == RouteAction::SubmitLine ==> (r matches ShellEffect::PromptRedraw(p)
            && process_model(*old(shell), *final(shell), p)),
        action == RouteAction::EraseChar ==> final(shell).buffer()@ == LineBuffer::erase_model(
            old(shell).buffer()@,
            old(shell).buffer().cursor(),
        ) && final(shell).buffer().cursor() == (if old(shell).buffer().cursor() > 0 {
            (old(shell).buffer().cursor() - 1) as u16
        } else {
            old(shell).buffer().cursor()
        }) && r == (if old(shell).buffer().cursor() > 0 {
            ShellEffect::EraseEcho
        } else {
            ShellEffect::Quiet
        }),
        action matches RouteAction::InsertEcho(c) ==> LineBuffer::add_char_model(
            old(shell).buffer(),
            final(shell).buffer(),
            KeyInput::Char(c),
        ) && r == ShellEffect::Echo(c),
        action matches RouteAction::InsertRaw(rk) ==> LineBuffer::add_char_model(
            old(shell).buffer(),
            final(shell).buffer(),
            KeyInput::Raw(rk),
        ) && r == ShellEffect::Quiet,
        (action == RouteAction::Discard || action matches RouteAction::ToGraphics(_)
            || action matches RouteAction::ToApplication(_)) ==> final(shell).buffer() == old(
            shell,
        ).buffer() && r == ShellEffect::Quiet,
{
    match action {
        RouteAction::SubmitLine => {
            let parsed = process_command(shell);
            ShellEffect::PromptRedraw(parsed)
        },
        RouteAction::EraseChar => {
            let erased = shell.line.backspace();
            if erased {
                ShellEffect::EraseEcho
            } else {
                ShellEffect::Quiet
            }
        },
        RouteAction::InsertEcho(c) => {
            shell.line.add_char(KeyInput::Char(c));
            ShellEffect::Echo(c)
        },
        RouteAction::InsertRaw(rk) => {
            shell.line.add_char(KeyInput::Raw(rk));
            ShellEffect::Quiet
        },
        RouteAction::Discard => ShellEffect::Quiet,
        RouteAction::ToGraphics(_) => ShellEffect::Quiet,
        RouteAction::ToApplication(_) => ShellEffect::Quiet,
    }
}

} // verus!
