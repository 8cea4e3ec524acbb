//! Looking up `--name=value` arguments of a command line, as the `menu`
//! runner's `argument_finder` does for a named-value parameter.

use vstd::prelude::*;

verus! {

/// The text views of the whitespace-separated words of a command line.
pub open spec fn arg_views(args: Seq<&str>) -> Seq<Seq<char>> {
    args.map_values(|a: &str| a@)
}

/// `p` is a prefix of `s`.
pub open spec fn has_prefix(s: Seq<char>, p: Seq<char>) -> bool {
    p.len() <= s.len() && s.subrange(0, p.len() as int) == p
}

/// The prefix `--name=` that introduces the value of a named argument.
pub open spec fn named_prefix(name: Seq<char>) -> Seq<char> {
    seq!['-', '-'] + name + seq!['=']
}

/// The value of the first word of `args` that starts with `--name=`, that is
/// the rest of the word after the `=`; `None` when no word does.
pub open spec fn named_value(args: Seq<Seq<char>>, name: Seq<char>) -> Option<Seq<char>>
    decreases args.len(),
{
    if args.len() == 0 {
        None
    } else if has_prefix(args[0], named_prefix(name)) {
        Some(args[0].skip(named_prefix(name).len() as int))
    } else {
        named_value(args.drop_first(), name)
    }
}

#[verifier::external_type_specification]
#[verifier::external_body]
#[verifier::reject_recursive_types(I)]
#[verifier::reject_recursive_types(T)]
pub struct ExMenu<'a, I, T: 'a>(menu::Menu<'a, I, T>);

#[verifier::external_type_specification]
#[verifier::external_body]
#[verifier::reject_recursive_types(I)]
#[verifier::reject_recursive_types(T)]
pub struct ExMenuItem<'a, I, T: 'a>(menu::Item<'a, I, T>);

/// The callback of the one-parameter item that `named_argument` hands to
/// the lookup: the lookup only reads the item's parameter list, so there is
/// nothing for it to do.
fn no_command(
    _menu: &menu::Menu<(), ()>,
    _item: &menu::Item<(), ()>,
    _args: &[&str],
    _interface: &mut (),
    _context: &mut (),
) {
}

/// `menu::argument_finder`, asked for a named-value parameter `name` (the
/// only kind of parameter this command line declares): the value of the
/// first argument that starts with `--name=`, or `None` when there is no
/// such argument. The value is handed back as an owned copy.
#[verifier::external_body]
pub fn named_argument(args: &[&str], name: &str) -> (res: Option<String>)
    ensures
        match named_value(arg_views(args@), name@) {
            Some(v) => res is Some && res->0@ == v,
            None => res is None,
        },
{
    let params = [menu::Parameter::NamedValue { parameter_name: name, argument_name: name, help: None }];
    let item: menu::Item<'_, (), ()> = menu::Item {
        command: name,
        help: None,
        item_type: menu::ItemType::Callback { function: no_command, parameters: &params },
    };
    match menu::argument_finder(&item, args, name) {
        Ok(Some(v)) => Some(v.to_string()),
        _ => None,
    }
}

} // verus!
