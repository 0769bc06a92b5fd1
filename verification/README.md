# booking

The verified core of an appointment-booking platform made of an API gateway
and four services (accounts, profiles, appointments, notifications).

- `src/` is the library, checked by Verus: settings and their defaults, the
  gateway's admission, routing and header forwarding, the account protocols
  (register, log in, refresh), the booking saga and cancellation, the
  notification records with their QR codes, and the user service's rules.
  Each protocol is a step function from a state and the outcome of the last
  action to the next state and action. `src/laws.rs` proves properties that
  span several operations, among them that bookings and cancellations
  answered by a store keep its slots and appointments consistent.
- `app/` runs the services: HTTP, the databases, the broker and token
  signing, performing the actions the library's step functions ask for.
- `tests/` exercises the library on concrete values.
