//! Interaction requests and responses: what the chat platform sends for each
//! user action, and what the bot answers with. The wire format (numeric tags
//! and JSON) is handled at the edge; here they are plain data.
use vstd::prelude::*;

verus! {

/// The kind of an incoming interaction.
#[derive(Clone, Copy, Debug, PartialEq, Eq, Structural)]
pub enum InteractionType {
    Ping,
    ApplicationCommand,
    MessageComponent,
    ModalSubmit,
}

/// One incoming interaction.
#[derive(Debug, PartialEq, Eq)]
pub struct InteractionRequest {
    pub kind: InteractionType,
    pub data: Option<InteractionData>,
    pub member: Option<GuildMember>,
    pub message: Option<Message>,
    pub guild_id: Option<String>,
    pub channel_id: Option<String>,
}

/// What an interaction carries, by kind.
#[derive(Debug, PartialEq, Eq)]
pub enum InteractionData {
    Command(ApplicationCommandData),
    Message(MessageComponentData),
    Modal(ModalSubmitData),
}

/// A slash command, by name.
#[derive(Debug, PartialEq, Eq)]
pub struct ApplicationCommandData {
    pub name: String,
}

/// A press on a message component, by custom id.
#[derive(Debug, PartialEq, Eq)]
pub struct MessageComponentData {
    pub custom_id: String,
    pub component_type: u8,
}

/// A submitted modal: its custom id and its fields with what was typed in them.
#[derive(Debug, PartialEq, Eq)]
pub struct ModalSubmitData {
    pub custom_id: String,
    pub components: Vec<Component>,
}

/// The member of a server who acted.
#[derive(Debug, PartialEq, Eq)]
pub struct GuildMember {
    pub user: User,
    pub nick: Option<String>,
}

/// The message that a component or modal belongs to.
#[derive(Debug, PartialEq, Eq)]
pub struct Message {
    pub content: String,
    pub interaction: Option<MessageInteraction>,
}

/// The command that made a message.
#[derive(Debug, PartialEq, Eq)]
pub struct MessageInteraction {
    pub name: String,
}

#[derive(Debug, PartialEq, Eq)]
pub struct User {
    pub id: String,
}

/// How an answer is shown.
#[derive(Clone, Copy, Debug, PartialEq, Eq, Structural)]
pub enum InteractionCallbackType {
    Pong,
    ChannelMessageWithSource,
    UpdateMessage,
    Modal,
}

/// One answer to an interaction.
#[derive(Debug, PartialEq, Eq)]
pub struct InteractionResponse {
    pub kind: InteractionCallbackType,
    pub data: InteractionCallbackData,
}

#[derive(Debug, PartialEq, Eq)]
pub enum InteractionCallbackData {
    Message(MessageCallbackData),
    Modal(ModalCallbackData),
}

/// Message flags; a message with `Ephemeral` is shown to the acting user alone.
#[derive(Clone, Copy, Debug, PartialEq, Eq, Structural)]
pub enum MessageFlags {
    Ephemeral,
}

/// A message answer: text, rows of components, and its visibility.
#[derive(Debug, PartialEq, Eq)]
pub struct MessageCallbackData {
    pub content: String,
    pub flags: Option<MessageFlags>,
    pub components: Vec<ActionRow>,
}

/// A modal answer: a form with a custom id, a title, and one field per row.
#[derive(Debug, PartialEq, Eq)]
pub struct ModalCallbackData {
    pub custom_id: String,
    pub title: String,
    pub components: Vec<ActionRow>,
}

#[derive(Clone, Copy, Debug, PartialEq, Eq, Structural)]
pub enum ComponentType {
    ActionRow,
    Button,
    TextInput,
}

#[derive(Clone, Copy, Debug, PartialEq, Eq, Structural)]
pub enum ButtonStyle {
    Primary,
}

#[derive(Clone, Copy, Debug, PartialEq, Eq, Structural)]
pub enum TextInputStyle {
    Short,
}

/// A row of components.
#[derive(Debug, PartialEq, Eq)]
pub struct ActionRow {
    pub kind: ComponentType,
    pub components: Vec<Component>,
}

#[derive(Debug, PartialEq, Eq)]
pub enum Component {
    Button(Button),
    Text(TextInput),
}

#[derive(Debug, PartialEq, Eq)]
pub struct Button {
    pub kind: ComponentType,
    pub label: Option<String>,
    pub style: ButtonStyle,
    pub custom_id: String,
}

/// A text field of a modal; in a submitted modal it holds what was typed.
#[derive(Debug, PartialEq, Eq)]
pub struct TextInput {
    pub kind: ComponentType,
    pub label: String,
    pub style: TextInputStyle,
    pub custom_id: String,
    pub value: Option<String>,
}

fn copy_opt_string(s: &Option<String>) -> (r: Option<String>)
    ensures
        r == *s,
{
    match s {
        Some(t) => Some(t.clone()),
        None => None,
    }
}

impl Component {
    /// A copy of this component.
    pub fn duplicate(&self) -> (r: Component)
        ensures
            r == *self,
    {
        match self {
            Component::Button(b) => Component::Button(
                Button {
                    kind: b.kind,
                    label: copy_opt_string(&b.label),
                    style: b.style,
                    custom_id: b.custom_id.clone(),
                },
            ),
            Component::Text(t) => Component::Text(
                TextInput {
                    kind: t.kind,
                    label: t.label.clone(),
                    style: t.style,
                    custom_id: t.custom_id.clone(),
                    value: copy_opt_string(&t.value),
                },
            ),
        }
    }

    /// A button with no label, in the primary style.
    pub fn button() -> (r: Button)
        ensures
            r.kind == ComponentType::Button,
            r.label is None,
            r.style == ButtonStyle::Primary,
            r.custom_id@ == "unlabeled button"@,
    {
        Button {
            kind: ComponentType::Button,
            label: None,
            style: ButtonStyle::Primary,
            custom_id: String::from_str("unlabeled button"),
        }
    }

    /// A short text field with an empty label.
    pub fn text_input() -> (r: TextInput)
        ensures
            r.kind == ComponentType::TextInput,
            r.label@ == Seq::<char>::empty(),
            r.style == TextInputStyle::Short,
            r.custom_id@ == "unlabeled text input"@,
            r.value is None,
    {
        TextInput::new()
    }
}

/// Copies of the components of `v`, in order.
pub fn duplicate_components(v: &Vec<Component>) -> (r: Vec<Component>)
    ensures
        r@ == v@,
{
    let mut r: Vec<Component> = Vec::new();
    let mut i: usize = 0;
    while i < v.len()
        invariant
            i <= v@.len(),
            r@ == v@.take(i as int),
        decreases v@.len() - i,
    {
        r.push(v[i].duplicate());
        i = i + 1;
        assert(r@ =~= v@.take(i as int));
    }
    assert(v@.take(i as int) =~= v@);
    r
}

impl From<Button> for Component {
    fn from(button: Button) -> (r: Component)
        ensures
            r == Component::Button(button),
    {
        Component::Button(button)
    }
}

impl vstd::std_specs::convert::FromSpecImpl<Button> for Component {
    open spec fn obeys_from_spec() -> bool {
        true
    }

    open spec fn from_spec(button: Button) -> Component {
        Component::Button(button)
    }
}

impl From<TextInput> for Component {
    fn from(text: TextInput) -> (r: Component)
        ensures
            r == Component::Text(text),
    {
        Component::Text(text)
    }
}

impl vstd::std_specs::convert::FromSpecImpl<TextInput> for Component {
    open spec fn obeys_from_spec() -> bool {
        true
    }

    open spec fn from_spec(text: TextInput) -> Component {
        Component::Text(text)
    }
}

impl Button {
    pub fn label(self, label: &str) -> (r: Button)
        ensures
            r.label is Some && r.label->0@ == label@,
            r.kind == self.kind,
            r.style == self.style,
            r.custom_id == self.custom_id,
    {
        Button { label: Some(String::from_str(label)), ..self }
    }

    pub fn id(self, id: &str) -> (r: Button)
        ensures
            r.custom_id@ == id@,
            r.kind == self.kind,
            r.style == self.style,
            r.label == self.label,
    {
        Button { custom_id: String::from_str(id), ..self }
    }
}

impl TextInput {
    /// A short text field with an empty label.
    pub fn new() -> (r: TextInput)
        ensures
            r.kind == ComponentType::TextInput,
            r.label@ == Seq::<char>::empty(),
            r.style == TextInputStyle::Short,
            r.custom_id@ == "unlabeled text input"@,
            r.value is None,
    {
        TextInput {
            kind: ComponentType::TextInput,
            label: String::new(),
            style: TextInputStyle::Short,
            custom_id: String::from_str("unlabeled text input"),
            value: None,
        }
    }

    pub fn label(self, label: &str) -> (r: TextInput)
        ensures
            r.label@ == label@,
            r.kind == self.kind,
            r.style == self.style,
            r.custom_id == self.custom_id,
            r.value == self.value,
    {
        TextInput { label: String::from_str(label), ..self }
    }

    pub fn id(self, id: &str) -> (r: TextInput)
        ensures
            r.custom_id@ == id@,
            r.kind == self.kind,
            r.style == self.style,
            r.label == self.label,
            r.value == self.value,
    {
        TextInput { custom_id: String::from_str(id), ..self }
    }

    /// The field as submitted, holding `value`.
    pub fn value(self, value: &str) -> (r: TextInput)
        ensures
            r.value is Some && r.value->0@ == value@,
            r.kind == self.kind,
            r.style == self.style,
            r.label == self.label,
            r.custom_id == self.custom_id,
    {
        TextInput { value: Some(String::from_str(value)), ..self }
    }
}

impl ActionRow {
    /// An empty row.
    pub fn new() -> (r: ActionRow)
        ensures
            r.kind == ComponentType::ActionRow,
            r.components@.len() == 0,
    {
        ActionRow { kind: ComponentType::ActionRow, components: Vec::new() }
    }

    pub fn components(self, components: Vec<Component>) -> (r: ActionRow)
        ensures
            r.kind == self.kind,
            r.components == components,
    {
        ActionRow { components, ..self }
    }
}

/// One row for each of `components`, in order.
pub open spec fn rows_of_one(rows: Seq<ActionRow>, components: Seq<Component>) -> bool {
    rows.len() == components.len() && forall|i: int|
        0 <= i < rows.len() ==> (#[trigger] rows[i]).kind == ComponentType::ActionRow
            && rows[i].components@ == seq![components[i]]
}

impl MessageCallbackData {
    pub fn content(self, msg: &str) -> (r: MessageCallbackData)
        ensures
            r.content@ == msg@,
            r.flags == self.flags,
            r.components == self.components,
    {
        MessageCallbackData { content: String::from_str(msg), ..self }
    }

    /// Puts `components` in a single row.
    pub fn components(self, components: Vec<Component>) -> (r: MessageCallbackData)
        ensures
            r.content == self.content,
            r.flags == self.flags,
            r.components@.len() == 1,
            r.components@[0].kind == ComponentType::ActionRow,
            r.components@[0].components == components,
    {
        let mut rows: Vec<ActionRow> = Vec::new();
        rows.push(ActionRow::new().components(components));
        MessageCallbackData { components: rows, ..self }
    }

    /// Makes the message visible to everyone.
    pub fn shout(self) -> (r: MessageCallbackData)
        ensures
            r.content == self.content,
            r.flags is None,
            r.components == self.components,
    {
        MessageCallbackData { flags: None, ..self }
    }
}

impl ModalCallbackData {
    pub fn id(self, id: &str) -> (r: ModalCallbackData)
        ensures
            r.custom_id@ == id@,
            r.title == self.title,
            r.components == self.components,
    {
        ModalCallbackData { custom_id: String::from_str(id), ..self }
    }

    pub fn title(self, title: &str) -> (r: ModalCallbackData)
        ensures
            r.title@ == title@,
            r.custom_id == self.custom_id,
            r.components == self.components,
    {
        ModalCallbackData { title: String::from_str(title), ..self }
    }

    /// Puts each of `components` in a row of its own.
    pub fn components(self, components: Vec<Component>) -> (r: ModalCallbackData)
        ensures
            r.custom_id == self.custom_id,
            r.title == self.title,
            rows_of_one(r.components@, components@),
    {
        let mut rows: Vec<ActionRow> = Vec::new();
        let mut i: usize = 0;
        while i < components.len()
            invariant
                i <= components@.len(),
                rows_of_one(rows@, components@.take(i as int)),
            decreases components@.len() - i,
        {
            let mut one: Vec<Component> = Vec::new();
            one.push(components[i].duplicate());
            rows.push(ActionRow::new().components(one));
            i = i + 1;
            assert(one@ =~= seq![components@[i - 1]]);
            assert forall|k: int| 0 <= k < rows@.len() implies (#[trigger] rows@[k]).kind
                == ComponentType::ActionRow && rows@[k].components@ == seq![
                components@.take(i as int)[k],
            ] by {
                if k < rows@.len() - 1 {
                    assert(components@.take(i as int)[k] == components@.take(i - 1)[k]);
                }
            }
        }
        assert(components@.take(i as int) =~= components@);
        ModalCallbackData { components: rows, ..self }
    }
}

impl From<ModalCallbackData> for InteractionResponse {
    fn from(data: ModalCallbackData) -> (r: InteractionResponse)
        ensures
            r == (InteractionResponse {
                kind: InteractionCallbackType::Modal,
                data: InteractionCallbackData::Modal(data),
            }),
    {
        InteractionResponse {
            kind: InteractionCallbackType::Modal,
            data: InteractionCallbackData::Modal(data),
        }
    }
}

impl vstd::std_specs::convert::FromSpecImpl<ModalCallbackData> for InteractionResponse {
    open spec fn obeys_from_spec() -> bool {
        true
    }

    open spec fn from_spec(data: ModalCallbackData) -> InteractionResponse {
        InteractionResponse {
            kind: InteractionCallbackType::Modal,
            data: InteractionCallbackData::Modal(data),
        }
    }
}

impl From<MessageCallbackData> for InteractionResponse {
    fn from(data: MessageCallbackData) -> (r: InteractionResponse)
        ensures
            r == (InteractionResponse {
                kind: InteractionCallbackType::ChannelMessageWithSource,
                data: InteractionCallbackData::Message(data),
            }),
    {
        InteractionResponse {
            kind: InteractionCallbackType::ChannelMessageWithSource,
            data: InteractionCallbackData::Message(data),
        }
    }
}

impl vstd::std_specs::convert::FromSpecImpl<MessageCallbackData> for InteractionResponse {
    open spec fn obeys_from_spec() -> bool {
        true
    }

    open spec fn from_spec(data: MessageCallbackData) -> InteractionResponse {
        InteractionResponse {
            kind: InteractionCallbackType::ChannelMessageWithSource,
            data: InteractionCallbackData::Message(data),
        }
    }
}

impl InteractionResponse {
    /// The answer to a ping.
    pub fn pong() -> (r: InteractionResponse)
        ensures
            r.kind == InteractionCallbackType::Pong,
            r.data matches InteractionCallbackData::Message(m) && m.content@.len() == 0
                && m.flags is None && m.components@.len() == 0,
    {
        let data = MessageCallbackData {
            content: String::new(),
            flags: None,
            components: Vec::new(),
        };
        InteractionResponse { kind: InteractionCallbackType::Pong, data: InteractionCallbackData::Message(data) }
    }

    /// An empty message, shown to the acting user alone.
    pub fn message() -> (r: MessageCallbackData)
        ensures
            r.content@.len() == 0,
            r.flags == Some(MessageFlags::Ephemeral),
            r.components@.len() == 0,
    {
        MessageCallbackData {
            content: String::new(),
            flags: Some(MessageFlags::Ephemeral),
            components: Vec::new(),
        }
    }

    /// An empty modal.
    pub fn modal() -> (r: ModalCallbackData)
        ensures
            r.custom_id@.len() == 0,
            r.title@.len() == 0,
            r.components@.len() == 0,
    {
        ModalCallbackData { custom_id: String::new(), title: String::new(), components: Vec::new() }
    }

    /// The same answer, shown by editing the message acted on.
    pub fn edit(self) -> (r: InteractionResponse)
        ensures
            r.kind == InteractionCallbackType::UpdateMessage,
            r.data == self.data,
    {
        InteractionResponse { kind: InteractionCallbackType::UpdateMessage, ..self }
    }

    /// The text of a message answer.
    pub fn message_content(&self) -> (r: Option<String>)
        ensures
            match self.data {
                InteractionCallbackData::Message(m) => r is Some && r->0@ == m.content@,
                InteractionCallbackData::Modal(_) => r is None,
            },
    {
        match &self.data {
            InteractionCallbackData::Message(m) => Some(m.content.clone()),
            InteractionCallbackData::Modal(_) => None,
        }
    }

    /// The components of a message answer that has a single row.
    pub fn message_components(&self) -> (r: Vec<Component>)
        requires
            self.data matches InteractionCallbackData::Message(m) && m.components@.len() == 1,
        ensures
            self.data matches InteractionCallbackData::Message(m) && r@
                == m.components@[0].components@,
    {
        match &self.data {
            InteractionCallbackData::Message(m) => duplicate_components(&m.components[0].components),
            InteractionCallbackData::Modal(_) => Vec::new(),
        }
    }
}

impl ApplicationCommandData {
    pub fn new(name: &str) -> (r: ApplicationCommandData)
        ensures
            r.name@ == name@,
    {
        ApplicationCommandData { name: String::from_str(name) }
    }
}

impl MessageComponentData {
    pub fn new(custom_id: &str, component_type: u8) -> (r: MessageComponentData)
        ensures
            r.custom_id@ == custom_id@,
            r.component_type == component_type,
    {
        MessageComponentData { custom_id: String::from_str(custom_id), component_type }
    }
}

/// The value typed into the first field of `components` with custom id `id`
/// that holds one.
pub open spec fn field_value(components: Seq<Component>, id: Seq<char>) -> Option<Seq<char>>
    decreases components.len(),
{
    if components.len() == 0 {
        None
    } else {
        match components[0] {
            Component::Text(t) => if t.custom_id@ == id && t.value is Some {
                Some(t.value->0@)
            } else {
                field_value(components.drop_first(), id)
            },
            Component::Button(_) => field_value(components.drop_first(), id),
        }
    }
}

impl ModalSubmitData {
    /// A submission with no fields.
    pub fn new(custom_id: &str) -> (r: ModalSubmitData)
        ensures
            r.custom_id@ == custom_id@,
            r.components@.len() == 0,
    {
        ModalSubmitData { custom_id: String::from_str(custom_id), components: Vec::new() }
    }

    /// The submission with one more field, `id`, holding `value`.
    pub fn field(self, id: &str, value: &str) -> (r: ModalSubmitData)
        ensures
            r.custom_id == self.custom_id,
            r.components@.len() == self.components@.len() + 1,
            r.components@.drop_last() == self.components@,
            r.components@.last() matches Component::Text(t) && t.custom_id@ == id@ && t.value
                is Some && t.value->0@ == value@,
    {
        let mut components = self.components;
        components.push(Component::Text(TextInput::new().id(id).value(value)));
        assert(components@.drop_last() =~= self.components@);
        ModalSubmitData { custom_id: self.custom_id, components }
    }

    /// What was typed into the field `id`.
    pub fn value_of(&self, id: &str) -> (r: Option<String>)
        ensures
            match field_value(self.components@, id@) {
                Some(v) => r is Some && r->0@ == v,
                None => r is None,
            },
    {
        let want = String::from_str(id);
        let mut i: usize = 0;
        assert(self.components@.skip(0) =~= self.components@);
        while i < self.components.len()
            invariant
                i <= self.components@.len(),
                want@ == id@,
                field_value(self.components@, id@) == field_value(
                    self.components@.skip(i as int),
                    id@,
                ),
            decreases self.components@.len() - i,
        {
            assert(self.components@.skip(i as int).drop_first() =~= self.components@.skip(i + 1));
            assert(self.components@.skip(i as int)[0] == self.components@[i as int]);
            match &self.components[i] {
                Component::Text(t) => {
                    if t.custom_id == want {
                        match &t.value {
                            Some(v) => {
                                return Some(v.clone());
                            },
                            None => {},
                        }
                    }
                },
                Component::Button(_) => {},
            }
            i = i + 1;
        }
        None
    }
}

impl GuildMember {
    /// A member with the user id `user` and no nickname.
    pub fn new(user: &str) -> (r: GuildMember)
        ensures
            r.user.id@ == user@,
            r.nick is None,
    {
        GuildMember { user: User { id: String::from_str(user) }, nick: None }
    }
}

impl InteractionRequest {
    /// A ping, which carries nothing.
    pub fn ping() -> (r: InteractionRequest)
        ensures
            r.kind == InteractionType::Ping,
            r.data is None,
            r.member is None,
            r.message is None,
            r.guild_id is None,
            r.channel_id is None,
    {
        InteractionRequest {
            kind: InteractionType::Ping,
            data: None,
            member: None,
            message: None,
            guild_id: None,
            channel_id: None,
        }
    }

    /// The id of the acting user, or `Unknown user` where there is no member.
    pub fn get_user(&self) -> (r: String)
        ensures
            r@ == match self.member {
                Some(m) => m.user.id@,
                None => "Unknown user"@,
            },
    {
        match &self.member {
            Some(m) => m.user.id.clone(),
            None => String::from_str("Unknown user"),
        }
    }

    /// The text of the message acted on, or the empty text.
    pub fn message_content(&self) -> (r: String)
        ensures
            r@ == match self.message {
                Some(m) => m.content@,
                None => Seq::<char>::empty(),
            },
    {
        match &self.message {
            Some(m) => m.content.clone(),
            None => String::new(),
        }
    }

    /// The name of the command that made the message acted on.
    pub fn interaction_name(&self) -> (r: Option<String>)
        ensures
            match self.message {
                Some(m) => match m.interaction {
                    Some(i) => r is Some && r->0@ == i.name@,
                    None => r is None,
                },
                None => r is None,
            },
    {
        match &self.message {
            Some(m) => match &m.interaction {
                Some(i) => Some(i.name.clone()),
                None => None,
            },
            None => None,
        }
    }

    /// The name of an invoked command.
    pub fn command_name(&self) -> (r: Option<String>)
        ensures
            match self.data {
                Some(InteractionData::Command(c)) => r is Some && r->0@ == c.name@,
                _ => r is None,
            },
    {
        match &self.data {
            Some(data) => match data {
                InteractionData::Command(app_data) => Some(app_data.name.clone()),
                InteractionData::Message(_) => None,
                InteractionData::Modal(_) => None,
            },
            None => None,
        }
    }

    /// The custom id of a pressed component or a submitted modal.
    pub fn custom_id(&self) -> (r: Option<String>)
        ensures
            match self.data {
                Some(InteractionData::Message(m)) => r is Some && r->0@ == m.custom_id@,
                Some(InteractionData::Modal(m)) => r is Some && r->0@ == m.custom_id@,
                _ => r is None,
            },
    {
        match &self.data {
            Some(data) => match data {
                InteractionData::Command(_) => None,
                InteractionData::Message(msg_data) => Some(msg_data.custom_id.clone()),
                InteractionData::Modal(modal_data) => Some(modal_data.custom_id.clone()),
            },
            None => None,
        }
    }

    /// What was typed into the field `id` of a submitted modal.
    pub fn modal_submit_value(&self, id: &str) -> (r: Option<String>)
        ensures
            match self.data {
                Some(InteractionData::Modal(m)) => match field_value(m.components@, id@) {
                    Some(v) => r is Some && r->0@ == v,
                    None => r is None,
                },
                _ => r is None,
            },
    {
        match &self.data {
            Some(InteractionData::Modal(m)) => m.value_of(id),
            _ => None,
        }
    }

    pub fn member(self, member: GuildMember) -> (r: InteractionRequest)
        ensures
            r == (InteractionRequest { member: Some(member), ..self }),
    {
        InteractionRequest { member: Some(member), ..self }
    }

    pub fn message(self, message: Message) -> (r: InteractionRequest)
        ensures
            r == (InteractionRequest { message: Some(message), ..self }),
    {
        InteractionRequest { message: Some(message), ..self }
    }

    pub fn application_command(name: &str) -> (r: ApplicationCommandData)
        ensures
            r.name@ == name@,
    {
        ApplicationCommandData::new(name)
    }

    pub fn message_component(custom_id: &str, component_type: u8) -> (r: MessageComponentData)
        ensures
            r.custom_id@ == custom_id@,
            r.component_type == component_type,
    {
        MessageComponentData::new(custom_id, component_type)
    }

    pub fn modal_submit(custom_id: &str) -> (r: ModalSubmitData)
        ensures
            r.custom_id@ == custom_id@,
            r.components@.len() == 0,
    {
        ModalSubmitData::new(custom_id)
    }
}

/// A request of the given kind that carries `data` and nothing else.
pub open spec fn bare_request(kind: InteractionType, data: InteractionData) -> InteractionRequest {
    InteractionRequest {
        kind,
        data: Some(data),
        member: None,
        message: None,
        guild_id: None,
        channel_id: None,
    }
}

impl From<ApplicationCommandData> for InteractionRequest {
    fn from(data: ApplicationCommandData) -> (r: InteractionRequest)
        ensures
            r == bare_request(InteractionType::ApplicationCommand, InteractionData::Command(data)),
    {
        InteractionRequest {
            kind: InteractionType::ApplicationCommand,
            data: Some(InteractionData::Command(data)),
            member: None,
            message: None,
            guild_id: None,
            channel_id: None,
        }
    }
}

impl vstd::std_specs::convert::FromSpecImpl<ApplicationCommandData> for InteractionRequest {
    open spec fn obeys_from_spec() -> bool {
        true
    }

    open spec fn from_spec(data: ApplicationCommandData) -> InteractionRequest {
        bare_request(InteractionType::ApplicationCommand, InteractionData::Command(data))
    }
}

impl From<MessageComponentData> for InteractionRequest {
    fn from(data: MessageComponentData) -> (r: InteractionRequest)
        ensures
            r == bare_request(InteractionType::MessageComponent, InteractionData::Message(data)),
    {
        InteractionRequest {
            kind: InteractionType::MessageComponent,
            data: Some(InteractionData::Message(data)),
            member: None,
            message: None,
            guild_id: None,
            channel_id: None,
        }
    }
}

impl vstd::std_specs::convert::FromSpecImpl<MessageComponentData> for InteractionRequest {
    open spec fn obeys_from_spec() -> bool {
        true
    }

    open spec fn from_spec(data: MessageComponentData) -> InteractionRequest {
        bare_request(InteractionType::MessageComponent, InteractionData::Message(data))
    }
}

impl From<ModalSubmitData> for InteractionRequest {
    fn from(data: ModalSubmitData) -> (r: InteractionRequest)
        ensures
            r == bare_request(InteractionType::ModalSubmit, InteractionData::Modal(data)),
    {
        InteractionRequest {
            kind: InteractionType::ModalSubmit,
            data: Some(InteractionData::Modal(data)),
            member: None,
            message: None,
            guild_id: None,
            channel_id: None,
        }
    }
}

impl vstd::std_specs::convert::FromSpecImpl<ModalSubmitData> for InteractionRequest {
    open spec fn obeys_from_spec() -> bool {
        true
    }

    open spec fn from_spec(data: ModalSubmitData) -> InteractionRequest {
        bare_request(InteractionType::ModalSubmit, InteractionData::Modal(data))
    }
}

} // verus!
