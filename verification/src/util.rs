//! Named arguments, and the messages that flow between the tasks of a machine.

use vstd::prelude::*;
use crate::protocol::ReadError;
use crate::text::parse_u16;
use crate::text::same_text;

verus! {

/// Whether `options` names `arg`.
pub open spec fn is_option(arg: Seq<char>, options: Seq<&str>) -> bool {
    exists|i: int| 0 <= i < options.len() && (#[trigger] options[i])@ == arg
}

/// Where the value of the argument `name` stands, if it is looked for from
/// position `from` on: right behind the first `name`, where the value of each
/// other option is passed over together with the option.
pub open spec fn value_position(
    name: Seq<char>,
    args: Seq<String>,
    options: Seq<&str>,
    from: int,
) -> Option<int>
    decreases args.len() + 1 - from,
{
    if from < 0 || from >= args.len() {
        None
    } else if args[from]@ == name {
        if from + 1 < args.len() {
            Some(from + 1)
        } else {
            None
        }
    } else if is_option(args[from]@, options) {
        value_position(name, args, options, from + 2)
    } else {
        value_position(name, args, options, from + 1)
    }
}

/// The value of the argument `name`, as it was given.
pub open spec fn given_value(name: Seq<char>, args: Seq<String>, options: Seq<&str>) -> Option<
    Seq<char>,
> {
    match value_position(name, args, options, 0) {
        Some(i) => Some(args[i]@),
        None => None,
    }
}

/// A position moved by `k`.
pub open spec fn moved(position: Option<int>, k: int) -> Option<int> {
    match position {
        Some(i) => Some(i + k),
        None => None,
    }
}

/// A search that starts later is a search of the rest of the arguments.
pub proof fn law_search_of_rest(
    name: Seq<char>,
    args: Seq<String>,
    options: Seq<&str>,
    k: int,
    from: int,
)
    requires
        0 <= k <= args.len(),
        0 <= from,
    ensures
        value_position(name, args, options, from + k) == moved(
            value_position(name, args.skip(k), options, from),
            k,
        ),
    decreases args.len() + 1 - from,
{
    if from + k < args.len() {
        assert(args.skip(k)[from] == args[from + k]);
        law_search_of_rest(name, args, options, k, from + 1);
        law_search_of_rest(name, args, options, k, from + 2);
    }
}

/// How many arguments a search passes over when the first of them is not the
/// name: a known argument goes together with its value, anything else alone.
pub open spec fn passed_over(args: Seq<String>, options: Seq<&str>) -> int {
    if is_option(args[0]@, options) && args.len() > 1 {
        2
    } else {
        1
    }
}

/// If the first argument is not the name, it does not matter: what is found is
/// what is found in the rest, where a known argument is passed over together
/// with its value and anything else alone.
pub proof fn law_first_is_passed_over<T: ArgumentValue>(
    name: Seq<char>,
    args: Seq<String>,
    options: Seq<&str>,
    value: Option<T>,
)
    requires
        args.len() > 0,
        args[0]@ != name,
    ensures
        given_value(name, args, options) == given_value(
            name,
            args.skip(passed_over(args, options)),
            options,
        ),
        is_parsed(name, args, options, value) <==> is_parsed(
            name,
            args.skip(passed_over(args, options)),
            options,
            value,
        ),
{
    let k = passed_over(args, options);
    let rest = args.skip(k);
    law_search_of_rest(name, args, options, k, 0);
    law_value_is_behind_name(name, rest, options, 0);
    assert(value_position(name, args, options, 0) == value_position(name, args, options, k)) by {
        if is_option(args[0]@, options) && args.len() == 1 {
            assert(value_position(name, args, options, 1) is None);
            assert(value_position(name, args, options, 2) is None);
        }
    }
}

/// Nothing is found where nothing is given.
pub proof fn law_nothing_given<T: ArgumentValue>(
    name: Seq<char>,
    options: Seq<&str>,
    value: Option<T>,
)
    ensures
        given_value(name, Seq::empty(), options) is None,
        is_parsed(name, Seq::empty(), options, value) <==> value is None,
{
}

/// Of the known arguments only matters which they are, the name itself left
/// aside: not their order, not how often each is named, and not whether the
/// name is among them.
pub proof fn law_only_other_options_matter<T: ArgumentValue>(
    name: Seq<char>,
    args: Seq<String>,
    options: Seq<&str>,
    others: Seq<&str>,
    value: Option<T>,
)
    requires
        forall|arg: Seq<char>|
            arg != name ==> (#[trigger] is_option(arg, options) <==> is_option(arg, others)),
    ensures
        value_position(name, args, options, 0) == value_position(name, args, others, 0),
        given_value(name, args, options) == given_value(name, args, others),
        is_parsed(name, args, options, value) <==> is_parsed(name, args, others, value),
{
    lemma_same_options(name, args, options, others, 0);
}

/// The same known arguments lead to the same position.
proof fn lemma_same_options(
    name: Seq<char>,
    args: Seq<String>,
    options: Seq<&str>,
    others: Seq<&str>,
    from: int,
)
    requires
        forall|arg: Seq<char>|
            arg != name ==> (#[trigger] is_option(arg, options) <==> is_option(arg, others)),
    ensures
        value_position(name, args, options, from) == value_position(name, args, others, from),
    decreases args.len() + 1 - from,
{
    if 0 <= from < args.len() {
        lemma_same_options(name, args, options, others, from + 1);
        lemma_same_options(name, args, options, others, from + 2);
    }
}

/// Arguments that are added at the end never change a value that is found
/// without them.
pub proof fn law_more_arguments_keep_value<T: ArgumentValue>(
    name: Seq<char>,
    args: Seq<String>,
    more: Seq<String>,
    options: Seq<&str>,
    value: Option<T>,
)
    requires
        given_value(name, args, options) is Some,
    ensures
        value_position(name, args + more, options, 0) == value_position(name, args, options, 0),
        given_value(name, args + more, options) == given_value(name, args, options),
        is_parsed(name, args + more, options, value) <==> is_parsed(name, args, options, value),
{
    lemma_more_arguments(name, args, more, options, 0);
    law_value_is_behind_name(name, args, options, 0);
}

/// A position that is found stays where it is.
proof fn lemma_more_arguments(
    name: Seq<char>,
    args: Seq<String>,
    more: Seq<String>,
    options: Seq<&str>,
    from: int,
)
    requires
        value_position(name, args, options, from) is Some,
    ensures
        value_position(name, args + more, options, from) == value_position(
            name,
            args,
            options,
            from,
        ),
    decreases args.len() + 1 - from,
{
    assert((args + more)[from] == args[from]);
    if args[from]@ != name {
        if is_option(args[from]@, options) {
            lemma_more_arguments(name, args, more, options, from + 2);
        } else {
            lemma_more_arguments(name, args, more, options, from + 1);
        }
    }
}

/// A value is found right behind its name.
pub proof fn law_value_is_behind_name(
    name: Seq<char>,
    args: Seq<String>,
    options: Seq<&str>,
    from: int,
)
    ensures
        value_position(name, args, options, from) matches Some(i) ==> {
            &&& from < i < args.len()
            &&& args[i - 1]@ == name
        },
    decreases args.len() + 1 - from,
{
    if 0 <= from < args.len() && args[from]@ != name {
        law_value_is_behind_name(name, args, options, from + 1);
        law_value_is_behind_name(name, args, options, from + 2);
    }
}

/// Nothing is found under a name that does not occur.
pub proof fn law_missing_is_not_found(name: Seq<char>, args: Seq<String>, options: Seq<&str>)
    requires
        forall|i: int| 0 <= i < args.len() ==> (#[trigger] args[i])@ != name,
    ensures
        value_position(name, args, options, 0) is None,
{
    law_value_is_behind_name(name, args, options, 0);
}

/// Where no known argument comes before the first occurrence of the name, what
/// is found stands behind that occurrence, if anything stands there.
pub proof fn law_first_occurrence_counts(
    name: Seq<char>,
    args: Seq<String>,
    options: Seq<&str>,
    from: int,
    first: int,
)
    requires
        0 <= from <= first < args.len(),
        args[first]@ == name,
        forall|i: int|
            from <= i < first ==> (#[trigger] args[i])@ != name && !is_option(args[i]@, options),
    ensures
        value_position(name, args, options, from) == (if first + 1 < args.len() {
            Some(first + 1)
        } else {
            None
        }),
    decreases first - from,
{
    if from < first {
        law_first_occurrence_counts(name, args, options, from + 1, first);
    }
}

/// What stands behind a known argument is its value, and never counts as the
/// name of another.
pub proof fn law_value_is_no_name(
    name: Seq<char>,
    args: Seq<String>,
    options: Seq<&str>,
    option: int,
    other: String,
)
    requires
        0 <= option < args.len() - 1,
        args[option]@ != name,
        is_option(args[option]@, options),
    ensures
        value_position(name, args, options, option) == value_position(
            name,
            args.update(option + 1, other),
            options,
            option,
        ),
{
    lemma_only_the_rest_counts(name, args, args.update(option + 1, other), options, option + 2);
}

/// The search looks at nothing before the position where it starts.
proof fn lemma_only_the_rest_counts(
    name: Seq<char>,
    args: Seq<String>,
    other: Seq<String>,
    options: Seq<&str>,
    from: int,
)
    requires
        args.len() == other.len(),
        0 <= from,
        forall|i: int| from <= i < args.len() ==> #[trigger] args[i] == other[i],
    ensures
        value_position(name, args, options, from) == value_position(name, other, options, from),
    decreases args.len() + 1 - from,
{
    if from < args.len() {
        assert(args[from] == other[from]);
        lemma_only_the_rest_counts(name, args, other, options, from + 1);
        lemma_only_the_rest_counts(name, args, other, options, from + 2);
    }
}

/// A type whose values can be given as the value of an argument.
pub trait ArgumentValue: Sized {
    /// Whether `text` is a way to write `value`.
    spec fn written_as(value: Self, text: Seq<char>) -> bool;

    /// Whether `text` is a way to write any value.
    spec fn is_written(text: Seq<char>) -> bool;

    /// Reads the value that `text` stands for.
    fn read_value(text: &str) -> (value: Option<Self>)
        ensures
            value is Some <==> Self::is_written(text@),
            value matches Some(v) ==> Self::written_as(v, text@),
    ;
}

/// Whether `value` is what comes of looking for the argument `name` and reading
/// its value.
pub open spec fn is_parsed<T: ArgumentValue>(
    name: Seq<char>,
    args: Seq<String>,
    options: Seq<&str>,
    value: Option<T>,
) -> bool {
    match given_value(name, args, options) {
        Some(text) => match value {
            Some(v) => T::written_as(v, text),
            None => !T::is_written(text),
        },
        None => value is None,
    }
}

/// What is given under a name that comes first stands right behind it. If
/// nothing stands there, nothing is given.
pub proof fn law_given_when_name_is_first(
    name: Seq<char>,
    args: Seq<String>,
    options: Seq<&str>,
)
    requires
        args.len() > 0,
        args[0]@ == name,
    ensures
        args.len() == 1 ==> given_value(name, args, options) is None,
        args.len() > 1 ==> given_value(name, args, options) == Some(args[1]@),
{
}

/// A known argument other than the name is passed over together with what
/// stands behind it, whatever that is.
pub proof fn law_given_behind_option(
    name: Seq<char>,
    args: Seq<String>,
    options: Seq<&str>,
    i: int,
)
    requires
        args.len() > 0,
        args[0]@ != name,
        0 <= i < options.len(),
        options[i]@ == args[0]@,
    ensures
        args.len() == 1 ==> given_value(name, args, options) is None,
        args.len() > 1 ==> given_value(name, args, options) == given_value(
            name,
            args.skip(2),
            options,
        ),
{
    law_first_is_passed_over(name, args, options, None::<String>);
    assert(is_option(args[0]@, options));
    if args.len() == 1 {
        assert(args.skip(1).len() == 0);
    }
}

/// Anything that is neither the name nor a known argument is passed over alone.
pub proof fn law_given_behind_other_word(
    name: Seq<char>,
    args: Seq<String>,
    options: Seq<&str>,
)
    requires
        args.len() > 0,
        args[0]@ != name,
        forall|i: int| 0 <= i < options.len() ==> (#[trigger] options[i])@ != args[0]@,
    ensures
        given_value(name, args, options) == given_value(name, args.skip(1), options),
{
    law_first_is_passed_over(name, args, options, None::<String>);
}

/// A text argument is read as it is given, and is there exactly if it is given.
pub proof fn law_text_argument(
    name: Seq<char>,
    args: Seq<String>,
    options: Seq<&str>,
    value: Option<String>,
)
    ensures
        is_parsed(name, args, options, value) <==> match value {
            Some(v) => given_value(name, args, options) == Some(v@),
            None => given_value(name, args, options) is None,
        },
{
}

/// A number argument is read by its digits: a row of digits of at most 65535 is
/// that number, with or without a plus sign, and is nothing if it is more.
pub proof fn law_number_argument(
    name: Seq<char>,
    args: Seq<String>,
    options: Seq<&str>,
    digits: Seq<char>,
    value: Option<u16>,
)
    requires
        digits.len() > 0,
        forall|i: int| 0 <= i < digits.len() ==> '0' <= #[trigger] digits[i] <= '9',
        given_value(name, args, options) == Some(digits) || given_value(name, args, options)
            == Some(seq!['+'] + digits),
        is_parsed(name, args, options, value),
    ensures
        crate::text::digits_value(digits) <= 65535 ==> value is Some && value->Some_0
            == crate::text::digits_value(digits),
        crate::text::digits_value(digits) > 65535 ==> value is None,
{
    crate::text::law_row_of_digits_is_number(digits);
}

/// A number argument that holds anything but digits, after a plus sign or not,
/// or no digit at all, or that is not given, is nothing.
pub proof fn law_no_number_argument(
    name: Seq<char>,
    args: Seq<String>,
    options: Seq<&str>,
    i: int,
    value: Option<u16>,
)
    requires
        match given_value(name, args, options) {
            Some(text) => text.len() == 0 || text == seq!['+'] || (0 <= i < text.len() && !('0'
                <= text[i] <= '9') && !(i == 0 && text[0] == '+')),
            None => true,
        },
        is_parsed(name, args, options, value),
    ensures
        value is None,
{
    if given_value(name, args, options) is Some {
        crate::text::law_nothing_else_is_number(given_value(name, args, options)->Some_0, i);
    }
}

/// A text is found under a name exactly if something is given there, and is
/// what is given.
pub proof fn law_text_is_read_as_given(
    name: Seq<char>,
    args: Seq<String>,
    options: Seq<&str>,
    value: Option<String>,
)
    requires
        is_parsed(name, args, options, value),
    ensures
        given_value(name, args, options) == (match value {
            Some(text) => Some(text@),
            None => None,
        }),
{
}

/// A number that is given in decimal is found as itself, if it has at most 16
/// bits, and else not at all.
pub proof fn law_number_is_read_back(
    name: Seq<char>,
    args: Seq<String>,
    options: Seq<&str>,
    n: nat,
    value: Option<u16>,
)
    requires
        given_value(name, args, options) == Some(crate::text::decimal(n)),
        is_parsed(name, args, options, value),
    ensures
        match value {
            Some(v) => v == n,
            None => n > u16::MAX,
        },
{
    crate::text::law_decimal_read_back(n);
}

impl ArgumentValue for String {
    /// Any text stands for itself.
    open spec fn written_as(value: String, text: Seq<char>) -> bool {
        value@ == text
    }

    open spec fn is_written(text: Seq<char>) -> bool {
        true
    }

    fn read_value(text: &str) -> (value: Option<String>) {
        Some(text.to_string())
    }
}

impl ArgumentValue for u16 {
    /// A number is written in decimal digits, after an optional `+`.
    open spec fn written_as(value: u16, text: Seq<char>) -> bool {
        crate::text::unsigned_value(text) == Some(value as nat)
    }

    open spec fn is_written(text: Seq<char>) -> bool {
        match crate::text::unsigned_value(text) {
            Some(value) => value <= u16::MAX,
            None => false,
        }
    }

    fn read_value(text: &str) -> (value: Option<u16>) {
        parse_u16(text)
    }
}

/// Whether one of `options` is `arg`.
fn names_option(arg: &str, options: &[&str]) -> (named: bool)
    ensures
        named == is_option(arg@, options@),
{
    let mut i: usize = 0;
    while i < options.len()
        invariant
            i <= options@.len(),
            forall|j: int| 0 <= j < i ==> (#[trigger] options@[j])@ != arg@,
        decreases options@.len() - i,
    {
        if same_text(options[i], arg) {
            assert(options@[i as int]@ == arg@);
            return true;
        }
        i = i + 1;
    }
    false
}

/// Finds the value of the named argument `name`, as it was given.
pub fn find_arg<'a>(name: &str, args: &'a [String], options: &[&str]) -> (value: Option<&'a str>)
    ensures
        match given_value(name@, args@, options@) {
            Some(text) => value matches Some(v) && v@ == text,
            None => value is None,
        },
{
    let n: usize = args.len();
    let mut i: usize = 0;
    while i < n
        invariant
            n == args@.len(),
            i <= n,
            value_position(name@, args@, options@, 0) == value_position(
                name@,
                args@,
                options@,
                i as int,
            ),
        decreases n - i,
    {
        if same_text(args[i].as_str(), name) {
            if i + 1 < n {
                return Some(args[i + 1].as_str());
            }
            return None;
        }
        if names_option(args[i].as_str(), options) {
            if i + 1 == n {
                assert(value_position(name@, args@, options@, i + 2) is None);
                return None;
            }
            i = i + 2;
        } else {
            i = i + 1;
        }
    }
    None
}

/// Finds the named argument `name` and reads its value. `options` are the
/// known arguments: the text behind each of them is a value and never the name
/// of an argument.
pub fn parse_arg<T: ArgumentValue>(name: &str, args: &[String], options: &[&str]) -> (value:
    Option<T>)
    ensures
        is_parsed(name@, args@, options@, value),
{
    match find_arg(name, args, options) {
        Some(text) => T::read_value(text),
        None => None,
    }
}

/// Names the joint channel of one client: whoever holds it can send to that
/// channel.
#[derive(Clone, Copy, Debug, PartialEq, Eq, Structural)]
pub struct Sender {
    pub channel: u64,
}

/// Internal message type: the messages that flow between the tasks of a
/// machine.
#[derive(Debug, PartialEq)]
pub enum InternalMessage<T> {
    /// A message was read from the network, or something that is no message.
    Network(Result<T, ()>),
    /// A message of the opponent, to be passed on.
    Opponent(T),
    /// An opponent (channel and id) has chosen this client to guess a word.
    OpponentAssigned(Sender, String, String),
    /// The opponent has found the word.
    WordFound,
    /// The opponent is gone.
    OpponentDisconnected,
    /// A line was typed.
    StdIn(String),
    /// The connection is lost.
    Error,
}

/// What an [`InternalMessage`] says.
pub enum InternalMessageView<V> {
    Network(Result<V, ()>),
    Opponent(V),
    OpponentAssigned(Sender, Seq<char>, Seq<char>),
    WordFound,
    OpponentDisconnected,
    StdIn(Seq<char>),
    Error,
}

impl<T: View> View for InternalMessage<T> {
    type V = InternalMessageView<T::V>;

    open spec fn view(&self) -> InternalMessageView<T::V> {
        match self {
            InternalMessage::Network(Ok(message)) => InternalMessageView::Network(Ok(message@)),
            InternalMessage::Network(Err(_)) => InternalMessageView::Network(Err(())),
            InternalMessage::Opponent(message) => InternalMessageView::Opponent(message@),
            InternalMessage::OpponentAssigned(
                tx,
                id,
                word,
            ) => InternalMessageView::OpponentAssigned(*tx, id@, word@),
            InternalMessage::WordFound => InternalMessageView::WordFound,
            InternalMessage::OpponentDisconnected => InternalMessageView::OpponentDisconnected,
            InternalMessage::StdIn(line) => InternalMessageView::StdIn(line@),
            InternalMessage::Error => InternalMessageView::Error,
        }
    }
}

impl<T> InternalMessage<T> {
    /// What follows an attempt to read: the message for the joint channel, and
    /// whether another attempt is made.
    pub open spec fn after_read(read: Result<T, ReadError>) -> (Self, bool) {
        match read {
            Ok(message) => (InternalMessage::Network(Ok(message)), true),
            Err(ReadError::Malformed) => (InternalMessage::Network(Err(())), true),
            Err(ReadError::Io) => (InternalMessage::Error, false),
        }
    }

    /// Each message that is read is reported as it is, what is no message is
    /// reported as such, and reading goes on; only a lost connection is
    /// reported as an error, and ends it.
    pub proof fn law_after_read(message: T)
        ensures
            Self::after_read(Ok(message)) == (InternalMessage::Network(Ok::<T, ()>(message)), true),
            Self::after_read(Err(ReadError::Malformed)) == (
                InternalMessage::Network(Err::<T, ()>(())),
                true,
            ),
            Self::after_read(Err(ReadError::Io)) == (InternalMessage::<T>::Error, false),
    {
    }

    /// What a network listener does after one attempt to read a message: which
    /// message it sends to the joint channel, and whether it goes on reading.
    pub fn on_read(read: Result<T, ReadError>) -> (step: (Self, bool))
        ensures
            step == Self::after_read(read),
            step == (match read {
                Ok(message) => (InternalMessage::Network(Ok(message)), true),
                Err(ReadError::Malformed) => (InternalMessage::Network(Err(())), true),
                Err(ReadError::Io) => (InternalMessage::Error, false),
            }),
    {
        match read {
            Ok(message) => (InternalMessage::Network(Ok(message)), true),
            Err(ReadError::Malformed) => (InternalMessage::Network(Err(())), true),
            Err(ReadError::Io) => (InternalMessage::Error, false),
        }
    }
}

/// An internal message says all that it holds, and nothing else.
pub proof fn law_internal_message_says_all<T: View>(
    message: T,
    tx: Sender,
    id: String,
    word: String,
)
    ensures
        InternalMessage::<T>::Network(Ok(message))@ == InternalMessageView::Network(
            Ok::<T::V, ()>(message@),
        ),
        InternalMessage::<T>::Network(Err(()))@ == InternalMessageView::<T::V>::Network(Err(())),
        InternalMessage::<T>::Opponent(message)@ == InternalMessageView::Opponent(message@),
        InternalMessage::<T>::OpponentAssigned(tx, id, word)@ == InternalMessageView::<
            T::V,
        >::OpponentAssigned(tx, id@, word@),
        InternalMessage::<T>::WordFound@ == InternalMessageView::<T::V>::WordFound,
        InternalMessage::<T>::OpponentDisconnected@
            == InternalMessageView::<T::V>::OpponentDisconnected,
        InternalMessage::<T>::StdIn(word)@ == InternalMessageView::<T::V>::StdIn(word@),
        InternalMessage::<T>::Error@ == InternalMessageView::<T::V>::Error,
{
}

} // verus!
