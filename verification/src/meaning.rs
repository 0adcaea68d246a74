//! What each operation of the chat is for, stated over its inputs and
//! results in elementary terms: characters, lengths and positions.
use vstd::prelude::*;
use crate::chat::{
    avatar_of, frame_step, online_label, participants_label, submit_step, ChatModel, ProfileModel,
    UpdateModel,
};
use crate::client::server_line;
use crate::protocol::{chat_line_frame, register_frame, FrameModel, MsgTypes};
use crate::text::{decimal, digit_char, ends_with_gif, white_space};

verus! {

/// A line is shown as an image exactly when its last four characters are
/// '.', 'g', 'i' and 'f'.
pub proof fn lemma_gif_means_dot_gif_suffix(s: Seq<char>)
    ensures
        ends_with_gif(s) <==> (s.len() >= 4 && s[s.len() - 4] == '.' && s[s.len() - 3] == 'g'
            && s[s.len() - 2] == 'i' && s[s.len() - 1] == 'f'),
{
    reveal_strlit(".gif");
    if s.len() >= 4 {
        let tail = s.subrange(s.len() - 4, s.len() as int);
        if s[s.len() - 4] == '.' && s[s.len() - 3] == 'g' && s[s.len() - 2] == 'i' && s[s.len()
            - 1] == 'f' {
            assert(tail =~= ".gif"@);
        }
        if tail == ".gif"@ {
            assert(tail[0] == s[s.len() - 4]);
            assert(tail[1] == s[s.len() - 3]);
            assert(tail[2] == s[s.len() - 2]);
            assert(tail[3] == s[s.len() - 1]);
        }
    }
}

/// Every received line is shown, in order, with its writer and text, on the
/// right exactly when its writer is this client's user, and as an image
/// exactly when it ends in ".gif".
pub proof fn lemma_lines_shown(chat: ChatModel, i: int)
    requires
        0 <= i < chat.messages.len(),
    ensures
        chat.rendered().messages.len() == chat.messages.len(),
        chat.rendered().no_messages == (chat.messages.len() == 0),
        chat.rendered().messages[i].from == chat.messages[i].from,
        chat.rendered().messages[i].message == chat.messages[i].message,
        chat.rendered().messages[i].is_me == (chat.messages[i].from == chat.current_user),
        ({
            let t = chat.messages[i].message;
            chat.rendered().messages[i].is_gif == (t.len() >= 4 && t.subrange(
                t.len() - 4,
                t.len() as int,
            ) == ".gif"@)
        }),
{
}

/// Every user online is listed, in order, with the avatar and the "you"
/// mark exactly for this client's user.
pub proof fn lemma_users_shown(chat: ChatModel, i: int)
    requires
        0 <= i < chat.users.len(),
    ensures
        chat.rendered().users.len() == chat.users.len(),
        chat.rendered().users[i].name == chat.users[i].name,
        chat.rendered().users[i].avatar == chat.users[i].avatar,
        chat.rendered().users[i].is_me == (chat.users[i].name == chat.current_user),
{
}

/// Submitting a text with any character that is not white space sends that
/// text exactly as typed, in a chat-line frame with no data array.
pub proof fn lemma_submit_sends_visible_text(text: Seq<char>, i: int)
    requires
        0 <= i < text.len(),
        !white_space(text[i]),
    ensures
        submit_step(Some(text)) == UpdateModel::Send(
            FrameModel { message_type: MsgTypes::Message, data_array: None, data: Some(text) },
        ),
{
}

/// In particular a text with an ASCII letter or digit in it is always sent,
/// exactly as typed.
pub proof fn lemma_submit_sends_alphanumeric_text(text: Seq<char>, i: int)
    requires
        0 <= i < text.len(),
        ('a' <= text[i] <= 'z') || ('A' <= text[i] <= 'Z') || ('0' <= text[i] <= '9'),
    ensures
        submit_step(Some(text)) == UpdateModel::Send(
            FrameModel { message_type: MsgTypes::Message, data_array: None, data: Some(text) },
        ),
{
    lemma_submit_sends_visible_text(text, i);
}

/// Nothing is sent where the input is missing or holds only white space.
pub proof fn lemma_submit_drops_blank(text: Seq<char>)
    requires
        forall|i: int| 0 <= i < text.len() ==> white_space(#[trigger] text[i]),
    ensures
        submit_step(Some(text)) == UpdateModel::Render(false),
        submit_step(None) == UpdateModel::Render(false),
{
}

/// A user list names every user online: after it, the users are exactly the
/// listed names, in order, each with the dicebear avatar named after it; a
/// user list without names leaves nobody online.
pub proof fn lemma_user_list_lists_every_name(chat: ChatModel, frame: FrameModel)
    requires
        frame.message_type == MsgTypes::Users,
    ensures
        frame.data_array matches Some(names) ==> {
            &&& chat.after_frame(frame).users.len() == names.len()
            &&& forall|i: int|
                0 <= i < names.len() ==> {
                    &&& #[trigger] chat.after_frame(frame).users[i].name == names[i]
                    &&& chat.after_frame(frame).users[i].avatar
                        == "https://avatars.dicebear.com/api/adventurer-neutral/"@ + names[i]
                        + ".svg"@
                }
        },
        frame.data_array is None ==> chat.after_frame(frame).users.len() == 0,
        frame_step(frame) == UpdateModel::Render(true),
{
}

/// A registration frame from the server changes nothing and is not
/// rendered; a chat line is handed on whole to be decoded.
pub proof fn lemma_other_frames(chat: ChatModel, frame: FrameModel)
    ensures
        frame.message_type == MsgTypes::Register ==> chat.after_frame(frame) == chat
            && frame_step(frame) == UpdateModel::Render(false),
        frame.message_type == MsgTypes::Message && frame.data is Some ==> chat.after_frame(frame)
            == chat && frame_step(frame) == UpdateModel::DecodeMessageData(frame.data->0),
{
}

/// The registration frame carries the whole user name; a chat-line frame
/// carries the whole text.
pub proof fn lemma_frames_carry_whole_text(name: Seq<char>)
    ensures
        register_frame(name).message_type == MsgTypes::Register,
        register_frame(name).data_array is None,
        register_frame(name).data == Some(name),
        register_frame(name).data->0.len() == name.len(),
        chat_line_frame(name).message_type == MsgTypes::Message,
        chat_line_frame(name).data_array is None,
        chat_line_frame(name).data == Some(name),
{
}

/// The printed line is the 32-character prefix followed by the whole text
/// from the server.
pub proof fn lemma_server_line_keeps_whole_text(text: Seq<char>)
    ensures
        server_line(text).len() == 32 + text.len(),
        server_line(text).take(32) == "Anita's Computer - From server: "@,
        server_line(text).skip(32) == text,
{
    reveal_strlit("Anita's Computer - From server: ");
    assert(server_line(text).take(32) =~= "Anita's Computer - From server: "@);
    assert(server_line(text).skip(32) =~= text);
}

/// The number that a string of decimal digits denotes.
pub open spec fn digits_value(s: Seq<char>) -> int
    decreases s.len(),
{
    if s.len() == 0 {
        0
    } else {
        digits_value(s.drop_last()) * 10 + (s.last() as int - '0' as int)
    }
}

/// Each digit character denotes its digit.
pub proof fn lemma_digit_char_denotes_its_digit(d: nat)
    requires
        d < 10,
    ensures
        digit_char(d) as int - '0' as int == d,
{
    let digits = seq!['0', '1', '2', '3', '4', '5', '6', '7', '8', '9'];
    assert(digit_char(d) == digits[d as int]);
    if d == 0 { assert(digits[0] == '0'); }
    else if d == 1 { assert(digits[1] == '1'); }
    else if d == 2 { assert(digits[2] == '2'); }
    else if d == 3 { assert(digits[3] == '3'); }
    else if d == 4 { assert(digits[4] == '4'); }
    else if d == 5 { assert(digits[5] == '5'); }
    else if d == 6 { assert(digits[6] == '6'); }
    else if d == 7 { assert(digits[7] == '7'); }
    else if d == 8 { assert(digits[8] == '8'); }
    else { assert(digits[9] == '9'); }
}

/// The decimal representation of a count denotes that count.
pub proof fn lemma_decimal_denotes_its_number(n: nat)
    ensures
        digits_value(decimal(n)) == n,
    decreases n,
{
    if n >= 10 {
        lemma_decimal_denotes_its_number(n / 10);
        lemma_digit_char_denotes_its_digit(n % 10);
        assert(decimal(n).drop_last() =~= decimal(n / 10));
        assert(decimal(n).last() == digit_char(n % 10));
        assert(digits_value(decimal(n)) == digits_value(decimal(n / 10)) * 10 + (digit_char(
            n % 10,
        ) as int - '0' as int));
        assert((n / 10) * 10 + n % 10 == n) by (nonlinear_arith);
    } else {
        lemma_digit_char_denotes_its_digit(n);
        assert(decimal(n).drop_last() =~= Seq::<char>::empty());
        assert(digits_value(Seq::<char>::empty()) == 0);
        assert(digits_value(decimal(n)) == digits_value(decimal(n).drop_last()) * 10 + (
        decimal(n).last() as int - '0' as int));
    }
}

/// The count of users online is the count in decimal followed by " online";
/// the header says "participant" for exactly one user and "participants"
/// otherwise, then " active".
pub proof fn lemma_labels(n: nat)
    ensures
        ({
            let d = decimal(n);
            &&& online_label(n).take(d.len() as int) == d
            &&& online_label(n).skip(d.len() as int) == " online"@
            &&& participants_label(n).take(d.len() as int) == d
            &&& n == 1 ==> participants_label(n).skip(d.len() as int) == " participant active"@
            &&& n != 1 ==> participants_label(n).skip(d.len() as int) == " participants active"@
        }),
{
    reveal_strlit(" online");
    reveal_strlit(" participant");
    reveal_strlit("s");
    reveal_strlit(" active");
    reveal_strlit(" participant active");
    reveal_strlit(" participants active");
    let d = decimal(n);
    assert(online_label(n).take(d.len() as int) =~= d);
    assert(online_label(n).skip(d.len() as int) =~= " online"@);
    assert(participants_label(n).take(d.len() as int) =~= d);
    if n == 1 {
        assert(participants_label(n).skip(d.len() as int) =~= " participant active"@);
    } else {
        assert(participants_label(n).skip(d.len() as int) =~= " participants active"@);
    }
}

/// The avatar beside a line is that of the first user online with the
/// writer's name, and empty where nobody online has that name.
pub proof fn lemma_avatar_of_first_match(users: Seq<ProfileModel>, name: Seq<char>, i: int)
    requires
        0 <= i < users.len(),
        users[i].name == name,
        forall|j: int| 0 <= j < i ==> #[trigger] users[j].name != name,
    ensures
        avatar_of(users, name) == users[i].avatar,
    decreases i,
{
    if i > 0 {
        let rest = users.drop_first();
        assert(users[0].name != name);
        assert forall|j: int| 0 <= j < i - 1 implies #[trigger] rest[j].name != name by {
            assert(rest[j] == users[j + 1]);
        }
        lemma_avatar_of_first_match(rest, name, i - 1);
    }
}

/// Where nobody online has the writer's name, no avatar is shown.
pub proof fn lemma_avatar_of_nobody(users: Seq<ProfileModel>, name: Seq<char>)
    requires
        forall|j: int| 0 <= j < users.len() ==> #[trigger] users[j].name != name,
    ensures
        avatar_of(users, name) == Seq::<char>::empty(),
    decreases users.len(),
{
    if users.len() > 0 {
        let rest = users.drop_first();
        assert forall|j: int| 0 <= j < rest.len() implies #[trigger] rest[j].name != name by {
            assert(rest[j] == users[j + 1]);
        }
        lemma_avatar_of_nobody(rest, name);
    }
}

/// Space, tab, line feed, carriage return, no-break space and ideographic
/// space are white space; letters, digits and the zero-width space are not.
pub proof fn lemma_white_space_examples(c: char)
    ensures
        white_space(' ') && white_space('\t') && white_space('\n') && white_space('\r'),
        white_space('\u{a0}') && white_space('\u{3000}'),
        ('a' <= c <= 'z') || ('A' <= c <= 'Z') || ('0' <= c <= '9') || c == '\u{200b}'
            ==> !white_space(c),
{
}

} // verus!
