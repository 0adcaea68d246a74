//! The chat view: who is online, the lines received so far, and how each
//! event of the view changes them.
use vstd::prelude::*;
use crate::protocol::{
    chat_line_frame, opt_string_view, register_frame, FrameModel, LineModel, MessageData,
    MsgTypes, WebSocketMessage,
};
use crate::text::{
    avatar_url, avatar_url_of, blank, decimal, ends_with_gif, is_blank, is_gif, push_decimal,
};

verus! {

/// A user who is online, with the address of the user's avatar.
#[derive(Debug)]
pub struct UserProfile {
    pub name: String,
    pub avatar: String,
}

/// A user profile as a mathematical value.
pub struct ProfileModel {
    pub name: Seq<char>,
    pub avatar: Seq<char>,
}

impl View for UserProfile {
    type V = ProfileModel;

    open spec fn view(&self) -> ProfileModel {
        ProfileModel { name: self.name@, avatar: self.avatar@ }
    }
}

/// The profile that the chat makes of the user called `name`.
pub open spec fn profile_of(name: Seq<char>) -> ProfileModel {
    ProfileModel { name, avatar: avatar_url_of(name) }
}

/// The profiles of the users named in `names`, in the same order.
pub open spec fn profiles_of(names: Seq<Seq<char>>) -> Seq<ProfileModel> {
    names.map_values(|n: Seq<char>| profile_of(n))
}

/// Every profile carries the avatar address that belongs to its name.
pub open spec fn profiles_match(users: Seq<ProfileModel>) -> bool {
    forall|i: int| 0 <= i < users.len() ==> #[trigger] users[i] == profile_of(users[i].name)
}

/// The avatar shown beside a line from `name`: that of the first user of
/// that name, or nothing where no such user is online.
pub open spec fn avatar_of(users: Seq<ProfileModel>, name: Seq<char>) -> Seq<char>
    decreases users.len(),
{
    if users.len() == 0 {
        Seq::empty()
    } else if users[0].name == name {
        users[0].avatar
    } else {
        avatar_of(users.drop_first(), name)
    }
}

/// The state of the chat view as a mathematical value.
pub struct ChatModel {
    pub users: Seq<ProfileModel>,
    pub messages: Seq<LineModel>,
    pub current_user: Seq<char>,
}

impl ChatModel {
    /// The state after a frame from the server: a user list replaces the
    /// users; any other frame leaves the state as it is.
    pub open spec fn after_frame(self, frame: FrameModel) -> ChatModel {
        match frame.message_type {
            MsgTypes::Users => ChatModel {
                users: profiles_of(
                    match frame.data_array {
                        Some(names) => names,
                        None => Seq::empty(),
                    },
                ),
                messages: self.messages,
                current_user: self.current_user,
            },
            _ => self,
        }
    }

    /// The state after a chat line has been received.
    pub open spec fn with_line(self, line: LineModel) -> ChatModel {
        ChatModel { users: self.users, messages: self.messages.push(line), current_user: self.current_user }
    }
}

/// What the view does after an event.
#[derive(Debug)]
pub enum Update {
    /// Nothing more to do; render the view again if the flag is set.
    Render(bool),
    /// A chat line arrived: the text holds a `MessageData` in JSON, which is
    /// to be decoded and handed to `Chat::receive_message_data`.
    DecodeMessageData(String),
    /// The typed text is to be sent in this frame; then the input is
    /// cleared, and the view is not rendered again.
    Send(WebSocketMessage),
}

/// An `Update` as a mathematical value.
pub enum UpdateModel {
    Render(bool),
    DecodeMessageData(Seq<char>),
    Send(FrameModel),
}

impl View for Update {
    type V = UpdateModel;

    open spec fn view(&self) -> UpdateModel {
        match self {
            Update::Render(b) => UpdateModel::Render(*b),
            Update::DecodeMessageData(s) => UpdateModel::DecodeMessageData(s@),
            Update::Send(f) => UpdateModel::Send(f@),
        }
    }
}

/// What the view does after a frame from the server: a user list is
/// rendered, a registration is ignored, a chat line is decoded.
pub open spec fn frame_step(frame: FrameModel) -> UpdateModel {
    match frame.message_type {
        MsgTypes::Users => UpdateModel::Render(true),
        MsgTypes::Register => UpdateModel::Render(false),
        MsgTypes::Message => UpdateModel::DecodeMessageData(frame.data.unwrap()),
    }
}

/// What the view does when the user submits the input: nothing where there
/// is no input or it holds only white space, else it sends the text as it
/// was typed.
pub open spec fn submit_step(input: Option<Seq<char>>) -> UpdateModel {
    match input {
        None => UpdateModel::Render(false),
        Some(text) => if blank(text) {
            UpdateModel::Render(false)
        } else {
            UpdateModel::Send(chat_line_frame(text))
        },
    }
}

/// An event of the chat view.
#[derive(Debug)]
pub enum Msg {
    /// A frame arrived from the server (decoded from its JSON text).
    HandleMsg(WebSocketMessage),
    /// The user submitted the chat input; this holds the input's text, or
    /// `None` where no input element is mounted.
    SubmitMessage(Option<String>),
}

/// The chat view's state: the users online, the lines received, and the
/// name under which this client registered.
#[derive(Debug)]
pub struct Chat {
    users: Vec<UserProfile>,
    messages: Vec<MessageData>,
    current_user: String,
}

impl Chat {
    /// The state as a mathematical value.
    pub closed spec fn model(&self) -> ChatModel {
        ChatModel {
            users: self.users@.map_values(|u: UserProfile| u@),
            messages: self.messages@.map_values(|m: MessageData| m@),
            current_user: self.current_user@,
        }
    }
}

impl Chat {
    #[verifier::type_invariant]
    closed spec fn profiles_consistent(self) -> bool {
        profiles_match(self.model().users)
    }

    /// A fresh view for the user `username`, and the frame that registers
    /// that user with the server.
    pub fn create(username: String) -> (res: (Chat, WebSocketMessage))
        ensures
            res.0.model() == (ChatModel {
                users: Seq::empty(),
                messages: Seq::empty(),
                current_user: username@,
            }),
            res.1@ == register_frame(username@),
    {
        let frame = WebSocketMessage::register(username.clone());
        let chat = Chat { users: Vec::new(), messages: Vec::new(), current_user: username };
        proof {
            assert(chat.model().users =~= Seq::empty());
            assert(chat.model().messages =~= Seq::empty());
        }
        (chat, frame)
    }

    /// Handles one event of the view.
    pub fn update(&mut self, msg: Msg) -> (step: Update)
        requires
            msg matches Msg::HandleMsg(frame) ==> (frame.message_type == MsgTypes::Message
                ==> frame.data is Some),
        ensures
            match msg {
                Msg::HandleMsg(frame) => {
                    &&& final(self).model() == old(self).model().after_frame(frame@)
                    &&& step@ == frame_step(frame@)
                },
                Msg::SubmitMessage(input) => {
                    &&& final(self).model() == old(self).model()
                    &&& step@ == submit_step(opt_string_view(input))
                },
            },
    {
        proof { use_type_invariant(&*self); }
        match msg {
            Msg::HandleMsg(frame) => match frame.message_type {
                MsgTypes::Users => {
                    let names: Vec<String> = match frame.data_array {
                        Some(names) => names,
                        None => Vec::new(),
                    };
                    let users = profiles_for(&names);
                    self.users = users;
                    proof {
                        assert(self.model().users =~= old(self).model().after_frame(frame@).users);
                    }
                    Update::Render(true)
                },
                MsgTypes::Register => Update::Render(false),
                MsgTypes::Message => {
                    let data = frame.data.unwrap();
                    Update::DecodeMessageData(data)
                },
            },
            Msg::SubmitMessage(input) => match input {
                None => Update::Render(false),
                Some(text) => {
                    if is_blank(text.as_str()) {
                        Update::Render(false)
                    } else {
                        Update::Send(WebSocketMessage::chat_line(text))
                    }
                },
            },
        }
    }

    /// Appends a received chat line; the view is then rendered again.
    pub fn receive_message_data(&mut self, data: MessageData) -> (render: bool)
        ensures
            final(self).model() == old(self).model().with_line(data@),
            render,
    {
        proof { use_type_invariant(&*self); }
        let ghost line = data@;
        let mut messages: Vec<MessageData> = Vec::new();
        std::mem::swap(&mut messages, &mut self.messages);
        messages.push(data);
        self.messages = messages;
        proof {
            assert(self.model().messages =~= old(self).model().messages.push(line));
        }
        true
    }
}

/// A row of the list of users online.
#[derive(Debug)]
pub struct UserEntry {
    pub name: String,
    pub avatar: String,
    /// Whether the row is the user of this client.
    pub is_me: bool,
}

/// A chat line as the view shows it.
#[derive(Debug)]
pub struct MessageEntry {
    pub from: String,
    pub message: String,
    /// Whether this client's user wrote the line (it is then shown on the right).
    pub is_me: bool,
    /// The avatar of the writer, or empty where the writer is not online.
    pub avatar: String,
    /// Whether the line is shown as an image rather than as text.
    pub is_gif: bool,
}

/// What the chat view shows.
#[derive(Debug)]
pub struct ChatView {
    /// The count of users online: "N online".
    pub online: String,
    /// The header line: "N participant active" or "N participants active".
    pub participants: String,
    pub users: Vec<UserEntry>,
    /// Whether the "no messages yet" placeholder is shown.
    pub no_messages: bool,
    pub messages: Vec<MessageEntry>,
}

/// A user row as a mathematical value.
pub struct UserEntryModel {
    pub name: Seq<char>,
    pub avatar: Seq<char>,
    pub is_me: bool,
}

/// A shown chat line as a mathematical value.
pub struct MessageEntryModel {
    pub from: Seq<char>,
    pub message: Seq<char>,
    pub is_me: bool,
    pub avatar: Seq<char>,
    pub is_gif: bool,
}

/// What the chat view shows, as a mathematical value.
pub struct ChatViewModel {
    pub online: Seq<char>,
    pub participants: Seq<char>,
    pub users: Seq<UserEntryModel>,
    pub no_messages: bool,
    pub messages: Seq<MessageEntryModel>,
}

impl View for UserEntry {
    type V = UserEntryModel;

    open spec fn view(&self) -> UserEntryModel {
        UserEntryModel { name: self.name@, avatar: self.avatar@, is_me: self.is_me }
    }
}

impl View for MessageEntry {
    type V = MessageEntryModel;

    open spec fn view(&self) -> MessageEntryModel {
        MessageEntryModel {
            from: self.from@,
            message: self.message@,
            is_me: self.is_me,
            avatar: self.avatar@,
            is_gif: self.is_gif,
        }
    }
}

impl View for ChatView {
    type V = ChatViewModel;

    open spec fn view(&self) -> ChatViewModel {
        ChatViewModel {
            online: self.online@,
            participants: self.participants@,
            users: self.users@.map_values(|u: UserEntry| u@),
            no_messages: self.no_messages,
            messages: self.messages@.map_values(|m: MessageEntry| m@),
        }
    }
}

/// "N online", for `n` users.
pub open spec fn online_label(n: nat) -> Seq<char> {
    decimal(n) + " online"@
}

/// "N participant active" for one user, "N participants active" otherwise.
pub open spec fn participants_label(n: nat) -> Seq<char> {
    decimal(n) + " participant"@ + (if n == 1 {
        Seq::empty()
    } else {
        "s"@
    }) + " active"@
}

/// The row that shows `user` to `me`.
pub open spec fn user_entry(user: ProfileModel, me: Seq<char>) -> UserEntryModel {
    UserEntryModel { name: user.name, avatar: user.avatar, is_me: user.name == me }
}

/// How the line `line` is shown to `me`, with `users` online.
pub open spec fn message_entry(
    line: LineModel,
    users: Seq<ProfileModel>,
    me: Seq<char>,
) -> MessageEntryModel {
    MessageEntryModel {
        from: line.from,
        message: line.message,
        is_me: line.from == me,
        avatar: avatar_of(users, line.from),
        is_gif: ends_with_gif(line.message),
    }
}

impl ChatModel {
    /// What the view shows in this state.
    pub open spec fn rendered(self) -> ChatViewModel {
        ChatViewModel {
            online: online_label(self.users.len()),
            participants: participants_label(self.users.len()),
            users: self.users.map_values(|u: ProfileModel| user_entry(u, self.current_user)),
            no_messages: self.messages.len() == 0,
            messages: self.messages.map_values(
                |l: LineModel| message_entry(l, self.users, self.current_user),
            ),
        }
    }
}

impl Chat {
    /// What the view shows; every user listed carries the avatar address
    /// that belongs to the user's name.
    pub fn view(&self) -> (shown: ChatView)
        ensures
            shown@ == self.model().rendered(),
            profiles_match(self.model().users),
    {
        proof { use_type_invariant(self); }
        let n = self.users.len();
        let mut online = String::new();
        push_decimal(&mut online, n);
        online.append(" online");
        let mut participants = String::new();
        push_decimal(&mut participants, n);
        participants.append(" participant");
        if n != 1 {
            participants.append("s");
        }
        participants.append(" active");
        proof {
            assert(online@ =~= online_label(n as nat));
            assert(participants@ =~= participants_label(n as nat));
        }
        let mut users: Vec<UserEntry> = Vec::new();
        for i in 0..n
            invariant
                n == self.users@.len(),
                users@.len() == i,
                forall|j: int|
                    0 <= j < i ==> #[trigger] users@[j]@ == user_entry(
                        self.model().users[j],
                        self.model().current_user,
                    ),
        {
            let u = &self.users[i];
            let is_me = u.name == self.current_user;
            users.push(UserEntry { name: u.name.clone(), avatar: u.avatar.clone(), is_me });
        }
        let m = self.messages.len();
        let mut messages: Vec<MessageEntry> = Vec::new();
        for i in 0..m
            invariant
                m == self.messages@.len(),
                messages@.len() == i,
                forall|j: int|
                    0 <= j < i ==> #[trigger] messages@[j]@ == message_entry(
                        self.model().messages[j],
                        self.model().users,
                        self.model().current_user,
                    ),
        {
            let line = &self.messages[i];
            let is_me = line.from == self.current_user;
            let avatar = self.avatar_for(&line.from);
            let gif = is_gif(line.message.as_str());
            messages.push(
                MessageEntry {
                    from: line.from.clone(),
                    message: line.message.clone(),
                    is_me,
                    avatar,
                    is_gif: gif,
                },
            );
        }
        let shown = ChatView { online, participants, users, no_messages: m == 0, messages };
        proof {
            assert(shown@.users =~= self.model().rendered().users);
            assert(shown@.messages =~= self.model().rendered().messages);
        }
        shown
    }

    /// The avatar of the first user online called `name`, or an empty
    /// string where nobody of that name is online.
    fn avatar_for(&self, name: &String) -> (avatar: String)
        ensures
            avatar@ == avatar_of(self.model().users, name@),
    {
        let ghost users = self.model().users;
        let mut i: usize = 0;
        proof {
            assert(users.skip(0) =~= users);
        }
        while i < self.users.len()
            invariant
                i <= self.users@.len(),
                users == self.model().users,
                avatar_of(users, name@) == avatar_of(users.skip(i as int), name@),
            decreases self.users@.len() - i,
        {
            proof {
                assert(users.skip(i as int).drop_first() =~= users.skip(i + 1));
            }
            if self.users[i].name == *name {
                return self.users[i].avatar.clone();
            }
            i += 1;
        }
        proof {
            assert(users.skip(i as int) =~= Seq::<ProfileModel>::empty());
        }
        String::new()
    }
}

/// The profiles of the users named in `names`.
fn profiles_for(names: &Vec<String>) -> (users: Vec<UserProfile>)
    ensures
        users@.map_values(|u: UserProfile| u@) == profiles_of(
            names@.map_values(|s: String| s@),
        ),
        profiles_match(users@.map_values(|u: UserProfile| u@)),
{
    let mut users: Vec<UserProfile> = Vec::new();
    for i in 0..names.len()
        invariant
            users@.len() == i,
            forall|j: int| 0 <= j < i ==> #[trigger] users@[j]@ == profile_of(names@[j]@),
    {
        let name = names[i].clone();
        let avatar = avatar_url(name.as_str());
        users.push(UserProfile { name, avatar });
    }
    assert(users@.map_values(|u: UserProfile| u@) =~= profiles_of(
        names@.map_values(|s: String| s@),
    ));
    users
}

/// Whether a key press in the chat input submits it: only the Enter key does.
pub fn key_submits(key: &str) -> (submits: bool)
    ensures
        submits == (key@ == "Enter"@),
{
    key.to_owned() == "Enter".to_owned()
}

} // verus!
