//! Where the classes of a program are found, and the way from the bytes of
//! a class file to the class.

use crate::class_loader::class_file::spec_class_file;
use crate::class_loader::class_file::ClassFile;
use crate::class_loader::class_file::SpecClassFile;
use crate::class_loader::raw_data::RawClassData;
use crate::error::JvmError;
use vstd::prelude::*;

verus! {

/// `text` with every `from` replaced by `to`.
pub open spec fn spec_replace(text: Seq<char>, from: char, to: Seq<char>) -> Seq<char>
    decreases text.len(),
{
    if text.len() == 0 {
        Seq::empty()
    } else {
        spec_replace(text.drop_last(), from, to) + if text.last() == from {
            to
        } else {
            seq![text.last()]
        }
    }
}

/// The path of a class relative to the class path: its name with a slash
/// for every dot.
pub open spec fn spec_class_name_to_path(class_name: Seq<char>) -> Seq<char> {
    spec_replace(class_name, '.', seq!['/'])
}

/// The folder that classes are loaded from: the current directory for the
/// class path `.`, and the class path below the current directory otherwise.
pub open spec fn spec_class_path_folder(current_dir: Seq<char>, class_path: Seq<char>) -> Seq<char> {
    if class_path == seq!['.'] {
        current_dir
    } else {
        current_dir + seq!['/'] + class_path
    }
}

/// The path of the file of a class: the folder, a slash, the path of the
/// class, and the extension `.class`.
pub open spec fn spec_full_class_path(folder: Seq<char>, class_name: Seq<char>) -> Seq<char> {
    folder + seq!['/'] + spec_class_name_to_path(class_name) + seq!['.', 'c', 'l', 'a', 's', 's']
}

/// Replacing a character by a character keeps the length of the text and
/// changes nothing but that character.
pub proof fn lemma_replace_is_pointwise(text: Seq<char>, from: char, to: char)
    ensures
        spec_replace(text, from, seq![to]) == Seq::new(
            text.len(),
            |i: int| if text[i] == from {
                to
            } else {
                text[i]
            },
        ),
    decreases text.len(),
{
    let mapped = |s: Seq<char>| Seq::new(s.len(), |i: int| if s[i] == from { to } else { s[i] });
    if text.len() > 0 {
        lemma_replace_is_pointwise(text.drop_last(), from, to);
        assert(spec_replace(text, from, seq![to]) =~= mapped(text));
    } else {
        assert(spec_replace(text, from, seq![to]) =~= mapped(text));
    }
}

/// `str::replace` with a character as the pattern: every occurrence of
/// `from` in `text` is replaced by `to`, and every other character stays in
/// its place. This contract is believed, not proved.
#[verifier::external_body]
fn replace_char(text: &str, from: char, to: &str) -> (replaced: String)
    ensures
        replaced@ == spec_replace(text@, from, to@),
{
    text.replace(from, to)
}

/// The folder from which the classes of a program are loaded.
#[derive(Debug)]
pub struct ClassRegistry {
    /// The path of the folder.
    pub class_path_folder: String,
}

impl ClassRegistry {
    /// The registry for a class path, which is taken relative to
    /// `current_dir`.
    pub fn new(current_dir: String, class_path_folder: String) -> (registry: ClassRegistry)
        ensures
            registry.class_path_folder@ == spec_class_path_folder(
                current_dir@,
                class_path_folder@,
            ),
    {
        let here = String::from_str(".");
        proof {
            reveal_strlit(".");
            reveal_strlit("/");
            assert("."@ =~= seq!['.']);
            assert("/"@ =~= seq!['/']);
        }
        if class_path_folder == here {
            ClassRegistry { class_path_folder: current_dir }
        } else {
            ClassRegistry {
                class_path_folder: current_dir.concat("/").concat(class_path_folder.as_str()),
            }
        }
    }

    /// The path of the file that holds the class `class_name`.
    pub fn full_class_path(&self, class_name: &str) -> (path: String)
        ensures
            path@ == spec_full_class_path(self.class_path_folder@, class_name@),
    {
        let relative = Self::class_name_to_path(class_name);
        proof {
            reveal_strlit("/");
            reveal_strlit(".class");
            assert("/"@ =~= seq!['/']);
            assert(".class"@ =~= seq!['.', 'c', 'l', 'a', 's', 's']);
        }
        self.class_path_folder.clone().concat("/").concat(relative.as_str()).concat(".class")
    }

    /// Decodes the class whose file holds `bytes`.
    pub fn load_class(bytes: Vec<u8>) -> (res: Result<ClassFile, JvmError>)
        ensures
            match spec_class_file(bytes@, 0) {
                Ok((class, _)) => res is Ok && res->Ok_0@ == class,
                Err(e) => res is Err && res->Err_0 == e,
            },
    {
        let mut raw_file_data = RawClassData { cursor: 0, data: bytes };
        ClassFile::new(&mut raw_file_data)
    }

    /// The path of a class relative to the class path.
    pub fn class_name_to_path(class_name: &str) -> (path: String)
        ensures
            path@ == spec_class_name_to_path(class_name@),
    {
        proof {
            reveal_strlit("/");
            assert("/"@ =~= seq!['/']);
        }
        replace_char(class_name, '.', "/")
    }
}

} // verus!
