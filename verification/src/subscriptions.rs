//! Who is notified of what the window manager does.

use vstd::prelude::*;

use crate::rule_set;
use crate::socket_message::SocketMessage;
use crate::socket_message::SubscribeOptions;
use crate::text;
use crate::window_manager_event::WindowManagerEvent;

verus! {

/// How many notifications wait for delivery before new ones are dropped.
pub const NOTIFY_CHANNEL_CAPACITY: usize = 256;

/// How long, in milliseconds, a notification is written to one subscriber at most.
pub const NOTIFY_WRITE_TIMEOUT_MS: u64 = 5000;

/// How often, in milliseconds, the notification that waits for others to replace it is
/// looked at.
pub const NOTIFY_POLL_MS: u64 = 250;

/// The options of the subscriber at a socket.
#[derive(Debug)]
pub struct SocketOptions {
    pub socket: String,
    pub options: SubscribeOptions,
}

#[derive(Debug)]
pub struct Subscriptions {
    pub sockets: Vec<String>,
    /// The options stay when a socket is removed.
    pub socket_options: Vec<SocketOptions>,
    pub pipes: Vec<String>,
}

/// The subscribers, for contracts.
#[verifier::ext_equal]
pub struct SubscriptionsView {
    pub sockets: Set<Seq<char>>,
    pub options: Map<Seq<char>, SubscribeOptions>,
    pub pipes: Set<Seq<char>>,
}

/// The texts of a list.
pub open spec fn texts(list: Seq<String>) -> Set<Seq<char>> {
    Set::new(|text: Seq<char>| rule_set::holds_text(list, text))
}

/// The first entry for a socket, from an index on.
pub open spec fn options_entry(list: Seq<SocketOptions>, socket: Seq<char>, from: int) -> Option<int>
    decreases list.len() - from,
{
    if from < 0 || from >= list.len() {
        None
    } else if list[from].socket@ == socket {
        Some(from)
    } else {
        options_entry(list, socket, from + 1)
    }
}

/// The options by socket.
pub open spec fn options_by_socket(list: Seq<SocketOptions>) -> Map<Seq<char>, SubscribeOptions> {
    Map::new(
        |socket: Seq<char>| options_entry(list, socket, 0) is Some,
        |socket: Seq<char>| list[options_entry(list, socket, 0)->0].options,
    )
}

impl View for Subscriptions {
    type V = SubscriptionsView;

    open spec fn view(&self) -> SubscriptionsView {
        SubscriptionsView {
            sockets: texts(self.sockets@),
            options: options_by_socket(self.socket_options@),
            pipes: texts(self.pipes@),
        }
    }
}

/// What an event or a command is to the subscribers.
#[derive(Clone, Copy, Debug, PartialEq, Eq, Structural)]
pub enum Delivery {
    /// Nobody wants to know.
    Skip,
    /// Keep it in the place of the one that waits, until nothing else is to be delivered.
    Coalesce,
    /// Deliver it after those before it.
    Queue,
    /// Deliver it after those before it, and drop the one that waits, which is older.
    Supersede,
}

/// The subscribers to which a notification is sent.
#[derive(Clone, Copy, Debug, PartialEq, Eq, Structural)]
pub struct Envelope {
    pub state_has_been_modified: bool,
    pub is_override: bool,
}

impl SubscriptionsView {
    /// Nobody is subscribed.
    pub open spec fn is_empty(self) -> bool {
        self.sockets =~= Set::empty() && self.pipes =~= Set::empty()
    }

    /// Whether the subscriber at a socket only wants to know of what changed the state.
    pub open spec fn filters(self, socket: Seq<char>) -> bool {
        self.options.contains_key(socket) && self.options[socket].filter_state_changes
    }

    /// Whether all subscribers only want to know of what changed the state. Pipes want to
    /// know everything.
    pub open spec fn all_filter(self) -> bool {
        &&& !(self.sockets =~= Set::empty())
        &&& self.pipes =~= Set::empty()
        &&& forall|socket: Seq<char>| self.sockets.contains(socket) ==> #[trigger] self.filters(
            socket,
        )
    }

    /// What becomes of a notification.
    pub open spec fn delivery(self, is_override: bool, modified: bool) -> Delivery {
        if self.is_empty() || (!modified && !is_override && self.all_filter()) {
            Delivery::Skip
        } else if is_override {
            Delivery::Supersede
        } else if modified && self.all_filter() {
            Delivery::Coalesce
        } else {
            Delivery::Queue
        }
    }

    /// Whether a notification is sent to the subscriber at a socket.
    pub open spec fn sends(self, socket: Seq<char>, envelope: Envelope) -> bool {
        self.sockets.contains(socket) && (!self.filters(socket)
            || envelope.state_has_been_modified || envelope.is_override)
    }

    pub open spec fn adding_socket(self, socket: Seq<char>) -> SubscriptionsView {
        SubscriptionsView { sockets: self.sockets.insert(socket), ..self }
    }

    pub open spec fn with_options(self, socket: Seq<char>, options: SubscribeOptions) -> SubscriptionsView {
        SubscriptionsView { options: self.options.insert(socket, options), ..self }
    }

    pub open spec fn removing_socket(self, socket: Seq<char>) -> SubscriptionsView {
        SubscriptionsView { sockets: self.sockets.remove(socket), ..self }
    }

    pub open spec fn adding_pipe(self, pipe: Seq<char>) -> SubscriptionsView {
        SubscriptionsView { pipes: self.pipes.insert(pipe), ..self }
    }

    pub open spec fn removing_pipe(self, pipe: Seq<char>) -> SubscriptionsView {
        SubscriptionsView { pipes: self.pipes.remove(pipe), ..self }
    }
}

fn add_text(list: &mut Vec<String>, text: &String)
    ensures
        texts(final(list)@) == texts(old(list)@).insert(text@),
{
    if !rule_set::contains_text(list, text.as_str()) {
        let ghost before = list@;
        list.push(text.clone());
        assert forall|t: Seq<char>| #[trigger] rule_set::holds_text(list@, t) == (
        rule_set::holds_text(before, t) || t == text@) by {
            if rule_set::holds_text(before, t) {
                let i = choose|i: int| 0 <= i < before.len() && (#[trigger] before[i])@ == t;
                assert(list@[i]@ == t);
            }
            if t == text@ {
                assert(list@[before.len() as int]@ == t);
            }
        }
    }
    assert(texts(list@) =~= texts(old(list)@).insert(text@));
}

fn remove_text(list: &mut Vec<String>, text: &String)
    ensures
        texts(final(list)@) == texts(old(list)@).remove(text@),
{
    let ghost before = list@;
    let mut kept: Vec<String> = Vec::new();
    let mut i: usize = 0;
    while i < list.len()
        invariant
            i <= list@.len(),
            list@ == before,
            forall|k: int|
                0 <= k < kept@.len() ==> (#[trigger] kept@[k])@ != text@ && rule_set::holds_text(
                    before,
                    kept@[k]@,
                ),
            forall|k: int|
                0 <= k < i && (#[trigger] before[k])@ != text@ ==> rule_set::holds_text(
                    kept@,
                    before[k]@,
                ),
        decreases list@.len() - i,
    {
        let ghost earlier = kept@;
        if !text::equal(list[i].as_str(), text.as_str()) {
            kept.push(list[i].clone());
            assert(kept@[earlier.len() as int]@ == before[i as int]@);
            assert forall|k: int| 0 <= k < i && (#[trigger] before[k])@ != text@ implies
                rule_set::holds_text(kept@, before[k]@) by {
                assert(rule_set::holds_text(earlier, before[k]@));
                let at = choose|at: int|
                    0 <= at < earlier.len() && (#[trigger] earlier[at])@ == before[k]@;
                assert(kept@[at]@ == before[k]@);
            }
        }
        i = i + 1;
    }
    *list = kept;
    assert forall|t: Seq<char>| #[trigger] rule_set::holds_text(list@, t) == (
    rule_set::holds_text(before, t) && t != text@) by {
        if rule_set::holds_text(list@, t) {
            let at = choose|at: int| 0 <= at < list@.len() && (#[trigger] list@[at])@ == t;
            assert(list@[at]@ != text@);
        }
        if rule_set::holds_text(before, t) && t != text@ {
            let at = choose|at: int| 0 <= at < before.len() && (#[trigger] before[at])@ == t;
            assert(before[at]@ != text@);
        }
    }
    assert(texts(list@) =~= texts(before).remove(text@));
}

/// Replacing the options of the first entry for a socket leaves the entries of all
/// sockets where they are.
proof fn same_entries(before: Seq<SocketOptions>, after: Seq<SocketOptions>, socket: Seq<char>, from: int)
    requires
        from >= 0,
        before.len() <= after.len(),
        forall|k: int| 0 <= k < before.len() ==> (#[trigger] after[k]).socket@ == before[k].socket@,
        forall|k: int|
            before.len() <= k < after.len() ==> (#[trigger] after[k]).socket@ != socket,
    ensures
        options_entry(after, socket, from) == options_entry(before, socket, from),
        options_entry(before, socket, from) matches Some(at) ==> from <= at < before.len()
            && before[at].socket@ == socket,
    decreases after.len() - from,
{
    if from < after.len() {
        same_entries(before, after, socket, from + 1);
    }
}

proof fn appended_entry(before: Seq<SocketOptions>, entry: SocketOptions, from: int)
    requires
        0 <= from <= before.len(),
        options_entry(before, entry.socket@, from) is None,
    ensures
        options_entry(before.push(entry), entry.socket@, from) == Some(before.len() as int),
    decreases before.len() - from,
{
    if from < before.len() {
        appended_entry(before, entry, from + 1);
    } else {
        assert(before.push(entry)[from] == entry);
    }
}

fn set_options(list: &mut Vec<SocketOptions>, socket: &String, options: SubscribeOptions)
    ensures
        options_by_socket(final(list)@) == options_by_socket(old(list)@).insert(socket@, options),
{
    let ghost before = list@;
    let mut i: usize = 0;
    while i < list.len()
        invariant
            i <= list@.len(),
            list@ == before,
            before == old(list)@,
            options_entry(before, socket@, 0) == options_entry(before, socket@, i as int),
        decreases list@.len() - i,
    {
        if text::equal(list[i].socket.as_str(), socket.as_str()) {
            list[i].options = options;
            assert(list@ =~= before.update(
                i as int,
                SocketOptions { options, ..before[i as int] },
            ));
            assert forall|s: Seq<char>|
                #![trigger options_entry(list@, s, 0)]
                options_entry(list@, s, 0) == options_entry(before, s, 0) && (options_entry(
                    before,
                    s,
                    0,
                ) matches Some(at) ==> 0 <= at < before.len() && before[at].socket@ == s) by {
                same_entries(before, list@, s, 0);
            }
            assert(options_entry(before, socket@, 0) == Some(i as int));
            assert(options_by_socket(list@) =~= options_by_socket(before).insert(
                socket@,
                options,
            ));
            return ;
        }
        i = i + 1;
    }
    let entry = SocketOptions { socket: socket.clone(), options };
    list.push(entry);
    proof {
        appended_entry(before, entry, 0);
        assert forall|s: Seq<char>| s != socket@ implies #[trigger] options_entry(list@, s, 0)
            == options_entry(before, s, 0) && (options_entry(before, s, 0) matches Some(at) ==> 0
            <= at < before.len()) by {
            same_entries(before, list@, s, 0);
        }
    }
    assert(options_by_socket(list@) =~= options_by_socket(before).insert(socket@, options));
}

impl Subscriptions {
    pub fn new() -> (r: Self)
        ensures
            r@.is_empty(),
            r@.options == Map::<Seq<char>, SubscribeOptions>::empty(),
    {
        let r = Subscriptions {
            sockets: Vec::new(),
            socket_options: Vec::new(),
            pipes: Vec::new(),
        };
        assert(r@.options =~= Map::<Seq<char>, SubscribeOptions>::empty());
        r
    }

    /// Whether there is a subscriber at all.
    pub fn has_subscribers(&self) -> (r: bool)
        ensures
            r == !self@.is_empty(),
    {
        let r = self.sockets.len() > 0 || self.pipes.len() > 0;
        proof {
            if self.sockets@.len() > 0 {
                assert(rule_set::holds_text(self.sockets@, self.sockets@[0]@));
                assert(self@.sockets.contains(self.sockets@[0]@));
            }
            if self.pipes@.len() > 0 {
                assert(rule_set::holds_text(self.pipes@, self.pipes@[0]@));
                assert(self@.pipes.contains(self.pipes@[0]@));
            }
        }
        r
    }

    pub fn add_socket(&mut self, socket: &String)
        ensures
            final(self)@ == old(self)@.adding_socket(socket@),
    {
        add_text(&mut self.sockets, socket);
    }

    pub fn add_socket_with_options(&mut self, socket: &String, options: SubscribeOptions)
        ensures
            final(self)@ == old(self)@.adding_socket(socket@).with_options(socket@, options),
    {
        add_text(&mut self.sockets, socket);
        set_options(&mut self.socket_options, socket, options);
    }

    pub fn remove_socket(&mut self, socket: &String)
        ensures
            final(self)@ == old(self)@.removing_socket(socket@),
    {
        remove_text(&mut self.sockets, socket);
    }

    pub fn add_pipe(&mut self, pipe: &String)
        ensures
            final(self)@ == old(self)@.adding_pipe(pipe@),
    {
        add_text(&mut self.pipes, pipe);
    }

    pub fn remove_pipe(&mut self, pipe: &String)
        ensures
            final(self)@ == old(self)@.removing_pipe(pipe@),
    {
        remove_text(&mut self.pipes, pipe);
    }

    fn filters_changes(&self, socket: &String) -> (r: bool)
        ensures
            r == self@.filters(socket@),
    {
        let mut i: usize = 0;
        while i < self.socket_options.len()
            invariant
                i <= self.socket_options@.len(),
                options_entry(self.socket_options@, socket@, 0) == options_entry(
                    self.socket_options@,
                    socket@,
                    i as int,
                ),
            decreases self.socket_options@.len() - i,
        {
            if text::equal(self.socket_options[i].socket.as_str(), socket.as_str()) {
                return self.socket_options[i].options.filter_state_changes;
            }
            i = i + 1;
        }
        false
    }

    fn all_filter_changes(&self) -> (r: bool)
        ensures
            r == self@.all_filter(),
    {
        proof {
            if self.sockets@.len() > 0 {
                assert(rule_set::holds_text(self.sockets@, self.sockets@[0]@));
                assert(self@.sockets.contains(self.sockets@[0]@));
            }
            if self.pipes@.len() > 0 {
                assert(rule_set::holds_text(self.pipes@, self.pipes@[0]@));
                assert(self@.pipes.contains(self.pipes@[0]@));
            }
        }
        if self.sockets.len() == 0 || self.pipes.len() > 0 {
            return false;
        }
        let mut i: usize = 0;
        while i < self.sockets.len()
            invariant
                i <= self.sockets@.len(),
                forall|k: int| 0 <= k < i ==> self@.filters((#[trigger] self.sockets@[k])@),
            decreases self.sockets@.len() - i,
        {
            if !self.filters_changes(&self.sockets[i]) {
                assert(rule_set::holds_text(self.sockets@, self.sockets@[i as int]@));
                assert(self@.sockets.contains(self.sockets@[i as int]@));
                return false;
            }
            i = i + 1;
        }
        assert forall|socket: Seq<char>| self@.sockets.contains(socket) implies
            #[trigger] self@.filters(socket) by {
            let at = choose|at: int|
                0 <= at < self.sockets@.len() && (#[trigger] self.sockets@[at])@ == socket;
            assert(self@.filters(self.sockets@[at]@));
        }
        assert(self@.pipes =~= Set::empty());
        true
    }

    /// What becomes of a notification.
    pub fn notify_subscribers(
        &self,
        event: &NotificationEvent,
        state_has_been_modified: bool,
    ) -> (r: Delivery)
        ensures
            r == self@.delivery(overrides(*event), state_has_been_modified),
    {
        let is_override = is_override_event(event);
        if !self.has_subscribers() {
            return Delivery::Skip;
        }
        let all_filter_state_changes = self.all_filter_changes();
        if !state_has_been_modified && !is_override && all_filter_state_changes {
            Delivery::Skip
        } else if is_override {
            Delivery::Supersede
        } else if state_has_been_modified && all_filter_state_changes {
            Delivery::Coalesce
        } else {
            Delivery::Queue
        }
    }

    /// The sockets to which a notification is sent, in the order in which they were
    /// added.
    pub fn recipients(&self, envelope: Envelope) -> (r: Vec<String>)
        ensures
            r@ == self.sockets@.filter(|socket: String| self@.sends(socket@, envelope)),
    {
        let ghost receives = |socket: String| self@.sends(socket@, envelope);
        let mut recipients: Vec<String> = Vec::new();
        let mut i: usize = 0;
        proof {
            reveal(Seq::filter);
        }
        while i < self.sockets.len()
            invariant
                i <= self.sockets@.len(),
                receives == (|socket: String| self@.sends(socket@, envelope)),
                recipients@ == self.sockets@.take(i as int).filter(receives),
            decreases self.sockets@.len() - i,
        {
            proof {
                reveal(Seq::filter);
                assert(self.sockets@.take(i + 1).drop_last() =~= self.sockets@.take(i as int));
                assert(rule_set::holds_text(self.sockets@, self.sockets@[i as int]@));
            }
            if !self.filters_changes(&self.sockets[i]) || envelope.state_has_been_modified
                || envelope.is_override {
                recipients.push(self.sockets[i].clone());
            }
            i = i + 1;
        }
        assert(self.sockets@.take(i as int) =~= self.sockets@);
        recipients
    }
}

/// Whether the virtual desktop on which windows are managed is shown again, or not any
/// more.
#[derive(Clone, Copy, Debug, PartialEq, Eq, Structural)]
pub enum VirtualDesktopNotification {
    EnteredAssociatedVirtualDesktop,
    LeftAssociatedVirtualDesktop,
}

/// What a notification is about.
#[derive(Debug)]
pub enum NotificationEvent {
    WindowManager(WindowManagerEvent),
    Socket(SocketMessage),
    /// A monitor has been connected, removed or changed.
    Monitor,
    VirtualDesktop(VirtualDesktopNotification),
}

/// Whether something is told to all subscribers even where it changes nothing.
pub open spec fn overrides(event: NotificationEvent) -> bool {
    match event {
        NotificationEvent::Socket(message) => match message {
            SocketMessage::AddSubscriberSocket(_)
            | SocketMessage::AddSubscriberSocketWithOptions(..)
            | SocketMessage::Theme
            | SocketMessage::ReloadStaticConfiguration(_) => true,
            _ => false,
        },
        NotificationEvent::WindowManager(event) => event is TitleUpdate || event is Show
            || event is Uncloak,
        _ => false,
    }
}

pub fn is_override_event(event: &NotificationEvent) -> (r: bool)
    ensures
        r == overrides(*event),
{
    match event {
        NotificationEvent::Socket(message) => matches!(
            message,
            SocketMessage::AddSubscriberSocket(_)
                | SocketMessage::AddSubscriberSocketWithOptions(..)
                | SocketMessage::Theme
                | SocketMessage::ReloadStaticConfiguration(_)
        ),
        NotificationEvent::WindowManager(event) => matches!(
            event,
            WindowManagerEvent::TitleUpdate(..)
                | WindowManagerEvent::Show(..)
                | WindowManagerEvent::Uncloak(..)
        ),
        NotificationEvent::Monitor | NotificationEvent::VirtualDesktop(_) => false,
    }
}

/// Whether a failed write to a pipe says that the subscriber is gone: the pipe does not
/// exist any more, or is being closed.
pub fn is_stale_pipe(os_error: Option<i32>) -> (r: bool)
    ensures
        r == (os_error == Some(2i32) || os_error == Some(232i32)),
{
    match os_error {
        Some(code) => code == 2 || code == 232,
        None => false,
    }
}

/// What is told to all subscribers is never skipped and never replaced by another one,
/// and drops the older one that waits.
pub proof fn overrides_are_delivered(subscriptions: SubscriptionsView, modified: bool)
    requires
        !subscriptions.is_empty(),
    ensures
        subscriptions.delivery(true, modified) == Delivery::Supersede,
{
}

/// Nothing is skipped or replaced that a subscriber without the filter would get.
pub proof fn unfiltered_subscribers_get_everything(
    subscriptions: SubscriptionsView,
    socket: Seq<char>,
    is_override: bool,
    modified: bool,
)
    requires
        subscriptions.sockets.contains(socket),
        !subscriptions.filters(socket),
    ensures
        subscriptions.delivery(is_override, modified) == Delivery::Queue
            || subscriptions.delivery(is_override, modified) == Delivery::Supersede,
        subscriptions.sends(
            socket,
            Envelope { state_has_been_modified: modified, is_override },
        ),
{
}

/// What is skipped would be sent to nobody.
pub proof fn skipped_notifications_have_no_recipient(
    subscriptions: SubscriptionsView,
    socket: Seq<char>,
    is_override: bool,
    modified: bool,
)
    requires
        subscriptions.delivery(is_override, modified) == Delivery::Skip,
    ensures
        !subscriptions.sends(
            socket,
            Envelope { state_has_been_modified: modified, is_override },
        ),
        subscriptions.pipes =~= Set::empty(),
{
}

/// Only where every subscriber looks at nothing but the state is a notification replaced
/// by a later one.
pub proof fn only_state_changes_are_coalesced(
    subscriptions: SubscriptionsView,
    is_override: bool,
    modified: bool,
)
    requires
        subscriptions.delivery(is_override, modified) == Delivery::Coalesce,
    ensures
        modified,
        !is_override,
        subscriptions.all_filter(),
{
}

/// A subscriber that is removed gets nothing any more.
pub proof fn removed_subscribers_get_nothing(
    subscriptions: SubscriptionsView,
    socket: Seq<char>,
    envelope: Envelope,
)
    ensures
        !subscriptions.removing_socket(socket).sends(socket, envelope),
{
}

} // verus!
