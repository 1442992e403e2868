//! Wren module loader.
//!
//! A module is named by identifiers separated by dots, such as
//! `gers.graphics`. The identifiers are the directories of the module's
//! file, the last one is the file's name without its extension.

use smol_str::SmolStr;
use vstd::prelude::*;
use vstd::string::StringExecFns;
use vstd::string::StrSliceExecFns;
use vstd::utf8::{encode_scalar, encode_utf8, is_ascii_chars, is_ascii_chars_encode_utf8};
use crate::smol::{smol_as_str, smol_new, smol_text};
use crate::text::{decimal, push_decimal_wide, push_text};

verus! {

/// The character that separates the identifiers of a module name.
pub const DELIMITER: char = '.';

/// The extension of a script file.
pub const WREN_EXT: &'static str = ".wren";

#[derive(Debug, Clone, Copy, PartialEq, Eq)]
pub enum ModuleNameParseKind {
    /// Unexpected end of string.
    UnexpectedEOS,
    /// Module name expected.
    ModuleNameMissing,
    /// Whitespace not allowed.
    Whitespace,
    /// Unexpected character.
    InvalidCharacter,
}

#[derive(Debug, PartialEq, Eq)]
pub struct ModuleNameError {
    pub kind: ModuleNameParseKind,
    /// Character position in the string where the parse error occurred.
    pub pos: usize,
    /// Current or last character where error occurred.
    pub snippet: String,
}

/// Whether the character may stand in an identifier.
pub open spec fn is_ident_char(c: char) -> bool {
    ('a' <= c <= 'z') || ('A' <= c <= 'Z') || ('0' <= c <= '9') || c == '-' || c == '_'
}

/// Whether the character is white space.
pub open spec fn is_space(c: char) -> bool {
    c == ' ' || c == '\t' || c == '\r' || c == '\n'
}

/// What is wrong with the character at a position, if anything: a
/// delimiter without identifier before it, white space, or a character
/// that is neither delimiter nor part of an identifier.
pub open spec fn fault_at(name: Seq<char>, i: int) -> Option<ModuleNameParseKind> {
    if name[i] == '.' {
        if i == 0 || name[i - 1] == '.' {
            Some(ModuleNameParseKind::ModuleNameMissing)
        } else {
            None
        }
    } else if is_space(name[i]) {
        Some(ModuleNameParseKind::Whitespace)
    } else if is_ident_char(name[i]) {
        None
    } else {
        Some(ModuleNameParseKind::InvalidCharacter)
    }
}

/// The first position at or after `from` with a fault.
pub open spec fn first_fault(name: Seq<char>, from: int) -> Option<int>
    decreases name.len() - from,
{
    if from < 0 || from >= name.len() {
        None
    } else if fault_at(name, from) is Some {
        Some(from)
    } else {
        first_fault(name, from + 1)
    }
}

/// The error of a name, with its position: the first fault, or the end of
/// the name where it is empty or ends in a delimiter. The end of an empty
/// name is the position zero. The characters before an error are ASCII,
/// so the position counts characters and bytes alike.
pub open spec fn name_error(name: Seq<char>) -> Option<(ModuleNameParseKind, int)> {
    match first_fault(name, 0) {
        Some(pos) => Some((fault_at(name, pos)->0, pos)),
        None => if name.len() == 0 {
            Some((ModuleNameParseKind::UnexpectedEOS, 0))
        } else if name.last() == '.' {
            Some((ModuleNameParseKind::UnexpectedEOS, name.len() - 1))
        } else {
            None
        },
    }
}

/// Where the identifier begins that the position `i` lies in or ends.
pub open spec fn ident_start(name: Seq<char>, i: nat) -> nat
    decreases i,
{
    if i == 0 || i > name.len() {
        0
    } else if name[i - 1] == '.' {
        i
    } else {
        ident_start(name, (i - 1) as nat)
    }
}

/// The identifiers that a delimiter ends before the position `upto`.
pub open spec fn closed_parts(name: Seq<char>, upto: nat) -> Seq<Seq<char>>
    decreases upto,
{
    if upto == 0 || upto > name.len() {
        Seq::<Seq<char>>::empty()
    } else if name[upto - 1] == '.' {
        closed_parts(name, (upto - 1) as nat).push(
            name.subrange(ident_start(name, (upto - 1) as nat) as int, upto - 1),
        )
    } else {
        closed_parts(name, (upto - 1) as nat)
    }
}

/// The path of a module's file, part by part: the identifiers of the name,
/// the last one with the extension of script files.
pub open spec fn path_parts(name: Seq<char>) -> Seq<Seq<char>> {
    closed_parts(name, name.len()).push(
        name.subrange(ident_start(name, name.len()) as int, name.len() as int) + WREN_EXT@,
    )
}

/// The marked copy of a name that an error shows: the mark stands before
/// the name for the first position, behind it for the last byte, and
/// before the character at the position otherwise.
pub open spec fn snippet(source: Seq<char>, pos: int) -> Seq<char> {
    if pos == 0 {
        "-->"@ + source
    } else if pos == encode_utf8(source).len() - 1 {
        source + "<--"@
    } else {
        source.take(pos) + "-->"@ + source.skip(pos)
    }
}

proof fn lemma_ident_start_bound(name: Seq<char>, i: nat)
    ensures
        ident_start(name, i) <= i,
    decreases i,
{
    if i > 0 && i <= name.len() && name[i - 1] != '.' {
        lemma_ident_start_bound(name, (i - 1) as nat);
    }
}

proof fn lemma_bytes_nonempty(chars: Seq<char>)
    requires
        chars.len() > 0,
    ensures
        encode_utf8(chars).len() >= 1,
{
    assert(encode_scalar(chars[0] as u32).len() >= 1);
}

#[derive(Debug, PartialEq, Eq)]
pub struct ModulePath {
    mod_path: SmolStr,
    file_path: Vec<String>,
}

impl ModulePath {
    /// The name of the module.
    pub closed spec fn name(self) -> Seq<char> {
        smol_text(self.mod_path)
    }

    /// The parts of the file's path.
    pub closed spec fn parts(self) -> Seq<Seq<char>> {
        Seq::new(self.file_path@.len(), |i: int| self.file_path@[i]@)
    }

    /// Parses the name of a module into the path of its file.
    pub fn new(module_name: &str) -> (r: Result<Self, ModuleNameError>)
        ensures
            match name_error(module_name@) {
                Some((kind, pos)) => r matches Err(e) && e.kind == kind && e.pos == pos
                    && e.snippet@ == snippet(module_name@, pos),
                None => r matches Ok(path) && path.name() == module_name@ && path.parts()
                    == path_parts(module_name@),
            },
    {
        let ghost name = module_name@;
        let n = module_name.unicode_len();
        // Convert to file path.
        let mut ident_buf = String::new();
        let mut ident_len: usize = 0;
        let mut path_buf: Vec<String> = Vec::new();
        let mut pos: usize = 0;
        assert(name.subrange(0, 0) =~= Seq::<char>::empty());
        while pos < n
            invariant
                name == module_name@,
                n == name.len(),
                pos <= n,
                first_fault(name, 0) == first_fault(name, pos as int),
                is_ascii_chars(name.take(pos as int)),
                ident_len == pos - ident_start(name, pos as nat),
                ident_start(name, pos as nat) <= pos,
                ident_buf@ == name.subrange(ident_start(name, pos as nat) as int, pos as int),
                path_buf@.len() == closed_parts(name, pos as nat).len(),
                forall|k: int|
                    0 <= k < path_buf@.len() ==> (#[trigger] path_buf@[k])@ == closed_parts(
                        name,
                        pos as nat,
                    )[k],
            decreases n - pos,
        {
            let c = module_name.get_char(pos);
            let ghost start = ident_start(name, pos as nat);
            proof {
                if pos > 0 {
                    lemma_ident_start_bound(name, (pos - 1) as nat);
                }
            }
            if c == '.' {
                if ident_len == 0 {
                    return Err(
                        ModuleNameError {
                            kind: ModuleNameParseKind::ModuleNameMissing,
                            pos,
                            snippet: Self::make_snippet(module_name, pos),
                        },
                    );
                } else {
                    path_buf.push(ident_buf);
                    ident_buf = String::new();
                    ident_len = 0;
                    assert(name.subrange(pos + 1, pos + 1) =~= Seq::<char>::empty());
                }
            } else if c == ' ' || c == '\t' || c == '\r' || c == '\n' {
                return Err(
                    ModuleNameError {
                        kind: ModuleNameParseKind::Whitespace,
                        pos,
                        snippet: Self::make_snippet(module_name, pos),
                    },
                );
            } else if (c >= 'a' && c <= 'z') || (c >= 'A' && c <= 'Z') || (c >= '0' && c <= '9')
                || c == '-' || c == '_' {
                ident_buf.push(c);
                ident_len = ident_len + 1;
                assert(ident_buf@ =~= name.subrange(start as int, pos + 1));
            } else {
                return Err(
                    ModuleNameError {
                        kind: ModuleNameParseKind::InvalidCharacter,
                        pos,
                        snippet: Self::make_snippet(module_name, pos),
                    },
                );
            }
            assert(name.take(pos + 1) =~= name.take(pos as int).push(c));
            pos += 1;
        }
        assert(name.take(n as int) =~= name);
        // Last path part, which is also considered the filename.
        if ident_len == 0 {
            if n == 0 {
                return Err(
                    ModuleNameError {
                        kind: ModuleNameParseKind::UnexpectedEOS,
                        pos: 0,
                        snippet: Self::make_snippet(module_name, 0),
                    },
                );
            }
            proof {
                is_ascii_chars_encode_utf8(name);
                lemma_ident_start_bound(name, (n - 1) as nat);
            }
            let pos = module_name.as_bytes().len() - 1;
            return Err(
                ModuleNameError {
                    kind: ModuleNameParseKind::UnexpectedEOS,
                    pos,
                    snippet: Self::make_snippet(module_name, pos),
                },
            );
        } else {
            ident_buf.append(WREN_EXT);
            path_buf.push(ident_buf);
        }
        let path = Self { mod_path: smol_new(module_name), file_path: path_buf };
        assert(path.parts() =~= path_parts(name));
        Ok(path)
    }

    /// The marked copy of a name for an error at a position.
    pub fn make_snippet(source: &str, pos: usize) -> (s: String)
        requires
            pos <= source@.len(),
        ensures
            s@ == snippet(source@, pos as int),
    {
        proof {
            if source@.len() > 0 {
                lemma_bytes_nonempty(source@);
            }
        }
        let byte_len = source.as_bytes().len();
        let mut s = String::new();
        if pos == 0 {
            // Start of string.
            push_text(&mut s, "-->");
            push_text(&mut s, source);
        } else if pos == byte_len - 1 {
            // End of string.
            push_text(&mut s, source);
            push_text(&mut s, "<--");
        } else {
            let n = source.unicode_len();
            push_text(&mut s, source.substring_char(0, pos));
            push_text(&mut s, "-->");
            push_text(&mut s, source.substring_char(pos, n));
        }
        assert(s@ =~= snippet(source@, pos as int));
        s
    }

    /// The name of the module.
    pub fn to_string(&self) -> (s: String)
        ensures
            s@ == self.name(),
    {
        String::from_str(smol_as_str(&self.mod_path))
    }

    /// Return the parsed file system path, part by part.
    pub fn as_path(&self) -> (parts: &Vec<String>)
        ensures
            parts@.len() == self.parts().len(),
            forall|i: int| 0 <= i < parts@.len() ==> (#[trigger] parts@[i])@ == self.parts()[i],
    {
        &self.file_path
    }
}

impl ModuleNameError {
    pub open spec fn text(self) -> Seq<char> {
        "parse error: "@ + (match self.kind {
            ModuleNameParseKind::UnexpectedEOS => "unexpected end of module path at '"@
                + self.snippet@ + "'"@,
            ModuleNameParseKind::ModuleNameMissing => "module name expected at character "@
                + decimal((self.pos + 1) as nat) + " '"@ + self.snippet@ + "'"@,
            ModuleNameParseKind::Whitespace => "whitespace not allowed in module path '"@
                + self.snippet@ + "'"@,
            ModuleNameParseKind::InvalidCharacter => "invalid character at '"@ + self.snippet@
                + "'"@,
        })
    }

    /// The error as text.
    pub fn to_string(&self) -> (s: String)
        ensures
            s@ == self.text(),
    {
        let mut s = String::new();
        push_text(&mut s, "parse error: ");
        match self.kind {
            ModuleNameParseKind::UnexpectedEOS => {
                push_text(&mut s, "unexpected end of module path at '");
            },
            ModuleNameParseKind::ModuleNameMissing => {
                push_text(&mut s, "module name expected at character ");
                push_decimal_wide(&mut s, self.pos as u128 + 1);
                push_text(&mut s, " '");
            },
            ModuleNameParseKind::Whitespace => {
                push_text(&mut s, "whitespace not allowed in module path '");
            },
            ModuleNameParseKind::InvalidCharacter => {
                push_text(&mut s, "invalid character at '");
            },
        }
        push_text(&mut s, self.snippet.as_str());
        push_text(&mut s, "'");
        assert(s@ =~= self.text());
        s
    }
}

} // verus!
