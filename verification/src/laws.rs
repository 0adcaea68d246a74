//! Properties of the chat that span several events.
use vstd::prelude::*;
use crate::chat::{avatar_of, profile_of, profiles_match, profiles_of, ChatModel, ProfileModel};
use crate::protocol::{FrameModel, LineModel, MsgTypes};
use crate::text::{avatar_url_of, decimal, digit_char};

verus! {

/// A user list from the server replaces the users shown: receiving the same
/// list twice leaves the view as receiving it once.
pub proof fn lemma_user_list_idempotent(chat: ChatModel, frame: FrameModel)
    requires
        frame.message_type == MsgTypes::Users,
    ensures
        chat.after_frame(frame).after_frame(frame) == chat.after_frame(frame),
{
}

/// No frame from the server changes the lines received so far or the name
/// under which this client registered.
pub proof fn lemma_frames_keep_history_and_user(chat: ChatModel, frame: FrameModel)
    ensures
        chat.after_frame(frame).messages == chat.messages,
        chat.after_frame(frame).current_user == chat.current_user,
{
}

/// The history only grows: a received line goes last, after all earlier
/// lines, and nothing else changes.
pub proof fn lemma_history_append_only(chat: ChatModel, line: LineModel)
    ensures
        chat.with_line(line).messages.len() == chat.messages.len() + 1,
        chat.with_line(line).messages.take(chat.messages.len() as int) == chat.messages,
        chat.with_line(line).messages.last() == line,
        chat.with_line(line).users == chat.users,
        chat.with_line(line).current_user == chat.current_user,
{
    assert(chat.with_line(line).messages.take(chat.messages.len() as int) =~= chat.messages);
}

/// Every profile made from a user list carries the avatar of its name.
pub proof fn lemma_listed_profiles_match(names: Seq<Seq<char>>)
    ensures
        profiles_match(profiles_of(names)),
{
}

/// Where every profile carries the avatar of its name, the avatar shown
/// beside a line is that of its writer's name if the writer is online, and
/// empty otherwise.
pub proof fn lemma_avatar_lookup(users: Seq<ProfileModel>, name: Seq<char>)
    requires
        profiles_match(users),
    ensures
        (exists|i: int| 0 <= i < users.len() && #[trigger] users[i].name == name) ==> avatar_of(
            users,
            name,
        ) == avatar_url_of(name),
        (forall|i: int| 0 <= i < users.len() ==> #[trigger] users[i].name != name) ==> avatar_of(
            users,
            name,
        ) == Seq::<char>::empty(),
    decreases users.len(),
{
    if users.len() > 0 {
        let rest = users.drop_first();
        assert(users[0] == profile_of(users[0].name));
        assert forall|i: int| 0 <= i < rest.len() implies #[trigger] rest[i] == profile_of(
            rest[i].name,
        ) by {
            assert(rest[i] == users[i + 1]);
        }
        lemma_avatar_lookup(rest, name);
        if users[0].name != name {
            if exists|i: int| 0 <= i < users.len() && #[trigger] users[i].name == name {
                let i = choose|i: int| 0 <= i < users.len() && #[trigger] users[i].name == name;
                assert(rest[i - 1].name == name);
            }
            if forall|i: int| 0 <= i < users.len() ==> #[trigger] users[i].name != name {
                assert forall|i: int| 0 <= i < rest.len() implies #[trigger] rest[i].name
                    != name by {
                    assert(rest[i] == users[i + 1]);
                }
            }
        }
    }
}

/// The count in the labels is written in decimal digits, with no leading
/// zero.
pub proof fn lemma_decimal_digits(n: nat)
    ensures
        decimal(n).len() >= 1,
        forall|i: int| 0 <= i < decimal(n).len() ==> '0' <= #[trigger] decimal(n)[i] <= '9',
        n > 0 ==> decimal(n)[0] != '0',
    decreases n,
{
    if n >= 10 {
        lemma_decimal_digits(n / 10);
        assert(decimal(n)[0] == decimal(n / 10)[0]);
    }
    assert forall|i: int| 0 <= i < decimal(n).len() implies '0' <= #[trigger] decimal(n)[i]
        <= '9' by {
        if n >= 10 && i < decimal(n / 10).len() {
            assert(decimal(n)[i] == decimal(n / 10)[i]);
        } else {
            let d = if n < 10 { n } else { n % 10 };
            assert(decimal(n)[i] == digit_char(d));
        }
    }
}

} // verus!
