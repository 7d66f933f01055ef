# huskarl_pingora

OAuth 2.0 protection for [Pingora](https://github.com/cloudflare/pingora)
proxies, with the decisions verified by Verus.

- **Resource server.** A `Guard` matches request paths against rules and decides,
  from what an access-token validator reports, whether a request is forwarded or
  denied with RFC 6750 / RFC 9449 challenges. It also serves RFC 9728 protected
  resource metadata.
- **Login.** An authorization code flow for browsers: the redirect to the
  authorization server, the callback, session policies (maximum lifetime, idle
  timeout, token refresh), cookie and store-backed sessions, and logout.

## Layout

| Path | What it holds |
| --- | --- |
| `src/` | The verified library. It computes and decides; it does no I/O. |
| `src/resource/` | Rules, the guard, challenges, metadata, the decisions of the guarding proxy. |
| `src/login/` | Configuration, cookies, sessions, URLs, error pages, and, under `proxy/`, the login flow as step functions. |
| `tests/` | Tests of the library, with the real outside crates linked. |
| `app/` | Ordinary Rust around the library: Pingora proxies, session drivers, the grant, stored forms of the session types. |

## How the flows are split

Where a flow alternates between waiting and deciding, the library has a step
function from a state and an event to the next state and an action. The proxy in
`app/` performs the action (load a session, refresh tokens, seal a cookie, send a
response) and hands back what happened:

- `login::proxy::filter::filter_step` for ordinary requests,
- `login::proxy::redirect::redirect_step` for the redirect to log in,
- `login::proxy::callback::callback_step` for the callback,
- `login::proxy::respond::begin_logout` and `finish_logout`, and likewise
  `begin_error_page` and `finish_error_page`, for answers that delete a session,
- `Guard::begin_check` and `Guard::finish_check` around the token validator.

## What is trusted

Calls into `http`, `pingora_http`, `pingora_error`, `matchit`, `serde_json`,
`serde_html_form`, `base64`, `uuid`, `huskarl_resource_server` and a few
functions of the standard library stand behind small wrappers whose contracts are believed. The doc comment
of each says what is trusted, and of which outside function it is claimed.

Functions named `law_…` state what holds of the library as a whole: that a
forwarded token satisfies its rule, that a saved session comes back, that a
session is made only after every check of a callback, that a login leads back to
where it began, and so on.
