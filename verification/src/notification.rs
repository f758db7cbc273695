use vstd::prelude::*;

verus! {

/// A button offered with a notification.
#[derive(Clone, Debug)]
pub struct NotificationAction {
    pub action: String,
    pub title: String,
    pub icon: Option<String>,
}

impl NotificationAction {
    pub fn new(action: String, title: String, icon: Option<String>) -> (r: Self)
        ensures
            r == (NotificationAction { action, title, icon }),
    {
        Self { action, title, icon }
    }
}

/// The options of a web notification; a field that is `None` is left to
/// the browser.
#[derive(Clone, Debug)]
pub struct NotificationOptions {
    pub body: Option<String>,
    pub icon: Option<String>,
    pub image: Option<String>,
    pub badge: Option<String>,
    pub timestamp: Option<i64>,
    pub tag: Option<String>,
    pub data: Option<String>,
    pub vibrate: Option<Vec<u64>>,
    pub renotify: Option<bool>,
    pub action: Option<Vec<NotificationAction>>,
}

/// The actions a notification offers, in the order they were added.
pub open spec fn actions_of(a: Option<Vec<NotificationAction>>) -> Seq<NotificationAction> {
    match a {
        Some(v) => v@,
        None => Seq::empty(),
    }
}

impl NotificationOptions {
    /// Options that leave everything to the browser.
    pub fn new() -> (r: Self)
        ensures
            r.body is None,
            r.icon is None,
            r.image is None,
            r.badge is None,
            r.timestamp is None,
            r.tag is None,
            r.data is None,
            r.vibrate is None,
            r.renotify is None,
            r.action is None,
    {
        Self {
            body: None,
            icon: None,
            image: None,
            badge: None,
            timestamp: None,
            tag: None,
            data: None,
            vibrate: None,
            renotify: None,
            action: None,
        }
    }

    /// Sets the text shown under the title.
    pub fn add_body(&mut self, body: String)
        ensures
            *final(self) == (NotificationOptions { body: Some(body), ..*old(self) }),
    {
        self.body = Some(body);
    }

    /// Sets the URL of the icon shown beside it.
    pub fn add_icon(&mut self, icon: String)
        ensures
            *final(self) == (NotificationOptions { icon: Some(icon), ..*old(self) }),
    {
        self.icon = Some(icon);
    }

    /// Sets the URL of an image shown in it.
    pub fn add_image(&mut self, image: String)
        ensures
            *final(self) == (NotificationOptions { image: Some(image), ..*old(self) }),
    {
        self.image = Some(image);
    }

    /// Sets the URL of the badge shown when there is no room for the icon.
    pub fn add_badge(&mut self, badge: String)
        ensures
            *final(self) == (NotificationOptions { badge: Some(badge), ..*old(self) }),
    {
        self.badge = Some(badge);
    }

    /// Sets the time the notification refers to, in milliseconds since the epoch.
    pub fn add_timestamp(&mut self, timestamp: i64)
        ensures
            *final(self) == (NotificationOptions { timestamp: Some(timestamp), ..*old(self) }),
    {
        self.timestamp = Some(timestamp);
    }

    /// Sets the tag that groups notifications.
    pub fn add_tag(&mut self, tag: String)
        ensures
            *final(self) == (NotificationOptions { tag: Some(tag), ..*old(self) }),
    {
        self.tag = Some(tag);
    }

    /// Sets data handed to the page that shows it.
    pub fn add_data(&mut self, data: String)
        ensures
            *final(self) == (NotificationOptions { data: Some(data), ..*old(self) }),
    {
        self.data = Some(data);
    }

    /// Sets the vibration pattern.
    pub fn add_vibrate(&mut self, vibrate: Vec<u64>)
        ensures
            *final(self) == (NotificationOptions { vibrate: Some(vibrate), ..*old(self) }),
    {
        self.vibrate = Some(vibrate);
    }

    /// Sets whether a notification with the same tag alerts again.
    pub fn renotify(&mut self, renotify: bool)
        ensures
            *final(self) == (NotificationOptions { renotify: Some(renotify), ..*old(self) }),
    {
        self.renotify = Some(renotify);
    }

    /// Appends an action after those already offered.
    pub fn add_action(&mut self, action: NotificationAction)
        ensures
            final(self).action is Some,
            actions_of(final(self).action) == actions_of(old(self).action).push(action),
            *final(self) == (NotificationOptions { action: final(self).action, ..*old(self) }),
    {
        let mut v = match self.action.take() {
            Some(v) => v,
            None => Vec::new(),
        };
        v.push(action);
        self.action = Some(v);
    }
}

/// A web notification: its title and options.
#[derive(Clone, Debug)]
pub struct Notification {
    pub title: String,
    pub options: NotificationOptions,
}

impl Notification {
    /// A notification with a title and no options.
    pub fn new(title: String) -> (r: Self)
        ensures
            r.title == title,
            r.options.body is None,
            r.options.icon is None,
            r.options.image is None,
            r.options.badge is None,
            r.options.timestamp is None,
            r.options.tag is None,
            r.options.data is None,
            r.options.vibrate is None,
            r.options.renotify is None,
            r.options.action is None,
    {
        Self { title, options: NotificationOptions::new() }
    }

    /// The notification with the text shown under the title set.
    pub fn add_body(self, body: String) -> (r: Self)
        ensures
            r == (Notification {
                options: NotificationOptions { body: Some(body), ..self.options },
                ..self
            }),
    {
        let mut n = self;
        n.options.add_body(body);
        n
    }

    /// The notification with the URL of the icon shown beside it set.
    pub fn add_icon(self, icon: String) -> (r: Self)
        ensures
            r == (Notification {
                options: NotificationOptions { icon: Some(icon), ..self.options },
                ..self
            }),
    {
        let mut n = self;
        n.options.add_icon(icon);
        n
    }

    /// The notification with the URL of an image shown in it set.
    pub fn add_image(self, image: String) -> (r: Self)
        ensures
            r == (Notification {
                options: NotificationOptions { image: Some(image), ..self.options },
                ..self
            }),
    {
        let mut n = self;
        n.options.add_image(image);
        n
    }

    /// The notification with the URL of the badge shown when there is no room for the icon set.
    pub fn add_badge(self, badge: String) -> (r: Self)
        ensures
            r == (Notification {
                options: NotificationOptions { badge: Some(badge), ..self.options },
                ..self
            }),
    {
        let mut n = self;
        n.options.add_badge(badge);
        n
    }

    /// The notification with the time the notification refers to, in milliseconds since the epoch set.
    pub fn add_timestamp(self, timestamp: i64) -> (r: Self)
        ensures
            r == (Notification {
                options: NotificationOptions { timestamp: Some(timestamp), ..self.options },
                ..self
            }),
    {
        let mut n = self;
        n.options.add_timestamp(timestamp);
        n
    }

    /// The notification with the tag that groups notifications set.
    pub fn add_tag(self, tag: String) -> (r: Self)
        ensures
            r == (Notification {
                options: NotificationOptions { tag: Some(tag), ..self.options },
                ..self
            }),
    {
        let mut n = self;
        n.options.add_tag(tag);
        n
    }

    /// The notification with data handed to the page that shows it set.
    pub fn add_data(self, data: String) -> (r: Self)
        ensures
            r == (Notification {
                options: NotificationOptions { data: Some(data), ..self.options },
                ..self
            }),
    {
        let mut n = self;
        n.options.add_data(data);
        n
    }

    /// The notification with the vibration pattern set.
    pub fn add_vibrate(self, vibrate: Vec<u64>) -> (r: Self)
        ensures
            r == (Notification {
                options: NotificationOptions { vibrate: Some(vibrate), ..self.options },
                ..self
            }),
    {
        let mut n = self;
        n.options.add_vibrate(vibrate);
        n
    }

    /// The notification with whether a notification with the same tag alerts again set.
    pub fn renotify(self, renotify: bool) -> (r: Self)
        ensures
            r == (Notification {
                options: NotificationOptions { renotify: Some(renotify), ..self.options },
                ..self
            }),
    {
        let mut n = self;
        n.options.renotify(renotify);
        n
    }

    /// The notification with one more action, after those already offered.
    pub fn add_action(self, action: NotificationAction) -> (r: Self)
        ensures
            r.title == self.title,
            actions_of(r.options.action) == actions_of(self.options.action).push(action),
            r.options == (NotificationOptions { action: r.options.action, ..self.options }),
    {
        let mut n = self;
        n.options.add_action(action);
        n
    }
}

} // verus!
