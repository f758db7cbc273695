# fardtjanst

The logic of a notification service for Stockholm's Färdtjänst (transport
service) customers, written in Verus with its contracts proved.

- `src/labels.rs`, `src/model.rs`, `src/notification.rs`: the shared data
  model: transports, companies, reservation statuses, trips and web
  notifications.
- `src/reservations.rs`, `src/records.rs`: the reservation service: stored
  reservations turned into trips, trip query plans, orders, cancellations and
  the simulated progress of a reservation.
- `src/access.rs`, `src/payload.rs`: logins, the session guard of protected
  routes and request bodies under a size limit.
- `src/notifier.rs`: the notification service's schedule and watchers.
- `src/client.rs`: the browser client's pages, form rules, its session
  state machine and the state of its login and registration pages.
- `src/text.rs`, `src/time.rs`: text helpers and the calls into chrono.
- `app/`: the two servers around the library (actix-web, sea-orm): the
  reservation service, and, started with the argument `notifier`, the
  notification service with its background watchers (reqwest, web-push).
