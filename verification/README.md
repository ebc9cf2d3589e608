# ss_connect

Connections through a Shadowsocks proxy, for an HTTP client. The library in `src/` is verified with
Verus; `app/` performs the network work around it.

- `auth`: the credentials in a proxy URL, whose user name is the base64 form of `cipher:password`
- `base64_text`, `cipher`: what these two parts of a user name mean
- `proxy_url`, `destination`, `server`, `tls`: the parties to a connection
- `connect`: the steps from a request to a connection
- `probe`: which proxies of a list work

What the library has from other crates stands behind functions whose doc comments start with the
name of the foreign function and say what is trusted of it.
