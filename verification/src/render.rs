//! The declarative configuration that a remote host is brought to: a fixed
//! frame around one block that lists the packages to install.

use vstd::prelude::*;
use vstd::string::StringExecFns;
use crate::text::{chars_of, contains_chars, occurs_in};

verus! {

/// Everything of the document that stands before the first package entry:
/// the user, the home directory, the state version and the opening of the
/// package block.
pub const PREAMBLE: &'static str = "
    { config, pkgs, lib, ... }:

    {
      # Home Manager needs a bit of information about you and the paths it should
      # manage.
      home.username = \"ubuntu\";
      home.homeDirectory = \"/home/ubuntu\";
    
      # This value determines the Home Manager release that your configuration is
      # compatible with. This helps avoid breakage when a new Home Manager release
      # introduces backwards incompatible changes.
      #
      # You should not change this value, even if you update Home Manager. If you do
      # want to update the value, then make sure to first check the Home Manager
      # release notes.
      home.stateVersion = \"23.05\"; # Please read the comment before changing.
    
      # The home.packages option allows you to install Nix packages into your
      # environment.
      home.packages = with pkgs; [ 
";

/// What stands before a package name on its line.
pub const ENTRY_INDENT: &'static str = "        ";

/// What stands behind a package name on its line.
pub const ENTRY_END: &'static str = " \n";

/// The end of the package block and of the document.
pub const CLOSING: &'static str = "    ];\n}\n";

/// The mark of a package that a language-level package manager installs.
pub const FOREIGN_MARK: &'static str = "npm";

/// The names that a list of packages holds, in order.
pub open spec fn names_of(packages: Seq<String>) -> Seq<Seq<char>> {
    packages.map_values(|package: String| package@)
}

/// Whether a package belongs to a language-level package manager, and so
/// has no place in the configuration of the system.
pub open spec fn is_foreign(name: Seq<char>) -> bool {
    occurs_in(name, FOREIGN_MARK@)
}

/// The names that stay when the foreign ones are taken out. Order and
/// repetitions are kept.
pub open spec fn surviving(names: Seq<Seq<char>>) -> Seq<Seq<char>>
    decreases names.len(),
{
    if names.len() == 0 {
        Seq::empty()
    } else if is_foreign(names.last()) {
        surviving(names.drop_last())
    } else {
        surviving(names.drop_last()).push(names.last())
    }
}

/// The line of one package in the block.
pub open spec fn entry_line(name: Seq<char>) -> Seq<char> {
    ENTRY_INDENT@ + name + ENTRY_END@
}

/// The lines of the given names, one after the other.
pub open spec fn block_text(names: Seq<Seq<char>>) -> Seq<char>
    decreases names.len(),
{
    if names.len() == 0 {
        Seq::empty()
    } else {
        block_text(names.drop_last()) + entry_line(names.last())
    }
}

/// The whole document for a list of package names.
pub open spec fn rendered(names: Seq<Seq<char>>) -> Seq<char> {
    PREAMBLE@ + block_text(surviving(names)) + CLOSING@
}

/// Tells whether a package is a foreign one.
pub fn is_foreign_package(name: &str) -> (foreign: bool)
    ensures
        foreign == is_foreign(name@),
{
    let text = chars_of(name);
    let mark = chars_of(FOREIGN_MARK);
    contains_chars(&text, &mark)
}

/// The packages that go into the block: the given ones without the foreign
/// ones, in the given order.
pub fn surviving_packages(packages: &Vec<String>) -> (kept: Vec<String>)
    ensures
        names_of(kept@) == surviving(names_of(packages@)),
{
    let mut kept: Vec<String> = Vec::new();
    let mut i: usize = 0;
    while i < packages.len()
        invariant
            i <= packages.len(),
            names_of(kept@) == surviving(names_of(packages@).take(i as int)),
        decreases packages.len() - i,
    {
        let ghost before = names_of(packages@).take(i as int);
        let ghost upto = names_of(packages@).take(i + 1);
        assert(upto.drop_last() == before);
        assert(upto.last() == packages@[i as int]@);
        if !is_foreign_package(packages[i].as_str()) {
            let ghost kept_before = kept@;
            kept.push(packages[i].clone());
            assert(names_of(kept@) == names_of(kept_before).push(packages@[i as int]@));
        }
        i += 1;
    }
    assert(names_of(packages@).take(i as int) == names_of(packages@));
    kept
}

/// Renders the configuration for a list of packages: the frame, and in it
/// one line for each package that is not foreign, in the given order.
pub fn to_home_manager_nix(packages: Vec<String>) -> (document: String)
    ensures
        document@ == rendered(names_of(packages@)),
{
    render_config(&packages)
}

/// Renders the configuration for a list of packages that the caller keeps.
pub fn render_config(packages: &Vec<String>) -> (document: String)
    ensures
        document@ == rendered(names_of(packages@)),
{
    let kept = surviving_packages(packages);
    let mut document = String::from_str(PREAMBLE);
    let mut i: usize = 0;
    while i < kept.len()
        invariant
            i <= kept.len(),
            document@ == PREAMBLE@ + block_text(names_of(kept@).take(i as int)),
        decreases kept.len() - i,
    {
        let ghost before = names_of(kept@).take(i as int);
        let ghost upto = names_of(kept@).take(i + 1);
        assert(upto.drop_last() == before);
        assert(upto.last() == kept@[i as int]@);
        document.append(ENTRY_INDENT);
        document.append(kept[i].as_str());
        document.append(ENTRY_END);
        assert(document@ == PREAMBLE@ + block_text(upto));
        i += 1;
    }
    assert(names_of(kept@).take(i as int) == names_of(kept@));
    document.append(CLOSING);
    document
}

/// A list of one name goes into the block as it is, unless the name is
/// foreign: then nothing of it does.
pub proof fn lemma_surviving_single(name: Seq<char>)
    ensures
        surviving(seq![name]) == if is_foreign(name) {
            Seq::<Seq<char>>::empty()
        } else {
            seq![name]
        },
{
    let single = seq![name];
    assert(single.drop_last() == Seq::<Seq<char>>::empty());
    assert(single.last() == name);
    assert(surviving(single.drop_last()) == Seq::<Seq<char>>::empty());
    if !is_foreign(name) {
        assert(Seq::<Seq<char>>::empty().push(name) == single);
    }
}

/// Filtering a list that was put together from two lists gives what
/// filtering each of them gives, put together: the filter looks at each
/// name by itself and keeps the order.
pub proof fn lemma_surviving_concat(first: Seq<Seq<char>>, second: Seq<Seq<char>>)
    ensures
        surviving(first + second) == surviving(first) + surviving(second),
    decreases second.len(),
{
    if second.len() == 0 {
        assert(first + second == first);
        assert(surviving(first) + surviving(second) == surviving(first));
    } else {
        let whole = first + second;
        assert(whole.drop_last() == first + second.drop_last());
        assert(whole.last() == second.last());
        lemma_surviving_concat(first, second.drop_last());
        if !is_foreign(second.last()) {
            assert(surviving(first + second.drop_last()).push(second.last()) == surviving(first)
                + surviving(second.drop_last()).push(second.last()));
        }
    }
}

/// No foreign package is among the entries of the block, and every entry
/// is one of the given names.
pub proof fn lemma_surviving_has_no_foreign(names: Seq<Seq<char>>)
    ensures
        forall|i: int|
            0 <= i < surviving(names).len() ==> !is_foreign(#[trigger] surviving(names)[i])
                && names.contains(surviving(names)[i]),
    decreases names.len(),
{
    if names.len() > 0 {
        lemma_surviving_has_no_foreign(names.drop_last());
        let kept = surviving(names);
        assert forall|i: int| 0 <= i < kept.len() implies !is_foreign(#[trigger] kept[i])
            && names.contains(kept[i]) by {
            if i < surviving(names.drop_last()).len() {
                let earlier = surviving(names.drop_last())[i];
                assert(kept[i] == earlier);
                let at = choose|at: int|
                    0 <= at < names.drop_last().len() && names.drop_last()[at] == earlier;
                assert(names[at] == earlier);
            } else {
                assert(kept[i] == names.last());
                assert(names[names.len() - 1] == names.last());
            }
        }
    }
}

/// A list without foreign packages goes into the block as it is.
pub proof fn lemma_surviving_keeps_native(names: Seq<Seq<char>>)
    requires
        forall|i: int| 0 <= i < names.len() ==> !is_foreign(#[trigger] names[i]),
    ensures
        surviving(names) == names,
    decreases names.len(),
{
    if names.len() > 0 {
        lemma_surviving_keeps_native(names.drop_last());
        assert(names.drop_last().push(names.last()) == names);
    }
}

/// The lines of a list that was put together from two lists are the lines
/// of the first followed by the lines of the second.
pub proof fn lemma_block_text_concat(first: Seq<Seq<char>>, second: Seq<Seq<char>>)
    ensures
        block_text(first + second) == block_text(first) + block_text(second),
    decreases second.len(),
{
    if second.len() == 0 {
        assert(first + second == first);
        assert(block_text(first) + block_text(second) == block_text(first));
    } else {
        let whole = first + second;
        assert(whole.drop_last() == first + second.drop_last());
        assert(whole.last() == second.last());
        lemma_block_text_concat(first, second.drop_last());
        assert(block_text(first + second.drop_last()) + entry_line(second.last()) == block_text(
            first,
        ) + (block_text(second.drop_last()) + entry_line(second.last())));
    }
}

/// Rendering depends on nothing but the names and their order: two lists
/// that hold the same names in the same order give the same document,
/// character for character.
pub proof fn lemma_same_names_same_document(first: Seq<String>, second: Seq<String>)
    requires
        first.len() == second.len(),
        forall|i: int| 0 <= i < first.len() ==> first[i]@ == second[i]@,
    ensures
        rendered(names_of(first)) == rendered(names_of(second)),
{
    assert(names_of(first) == names_of(second));
}

/// Every document is complete: it opens with the preamble and ends with
/// the closing of the block, whatever the packages are.
pub proof fn lemma_document_is_framed(names: Seq<Seq<char>>)
    ensures
        rendered(names).len() >= PREAMBLE@.len() + CLOSING@.len(),
        rendered(names).subrange(0, PREAMBLE@.len() as int) == PREAMBLE@,
        rendered(names).subrange(
            rendered(names).len() - CLOSING@.len(),
            rendered(names).len() as int,
        ) == CLOSING@,
{
}

/// Without packages the document is the frame alone, around an empty block.
pub proof fn lemma_empty_list_renders_frame()
    ensures
        rendered(Seq::empty()) == PREAMBLE@ + CLOSING@,
{
    assert(surviving(Seq::<Seq<char>>::empty()) == Seq::<Seq<char>>::empty());
    assert(block_text(Seq::<Seq<char>>::empty()) == Seq::<char>::empty());
    assert(PREAMBLE@ + Seq::<char>::empty() == PREAMBLE@);
}

} // verus!
