# domeneshop_mcp

An MCP server for the Domeneshop API: it lists domains and their DNS records
as resources, and creates, updates and deletes DNS records as tools, always
with the credentials that the calling client sends (`Authorization: Basic
<base64(token_name:secret)>`).

The crate is split in two:

- `src/` is the library, verified with Verus: how resource URIs are written
  and read back, how a request's credentials are checked, how an upstream
  answer is judged and what is made of it (domain lookup, domain listing,
  domain details), how a flat tool request becomes a DNS record, and the
  text of the tools' answers and of the errors it decides.
- `app/` is the server around it: the HTTP transport, the calls to the
  Domeneshop API, JSON parsing into the library's `Json` type, parsing of IP
  addresses (`std::net`), writing the `get_domain` answer back to JSON text,
  the messages of failed HTTP calls and JSON parses, and conversions to and
  from the protocol's types.

Settings: `DOMENESHOP_BASE_URL` (default `https://api.domeneshop.no/v0`) and
`BIND` (default `127.0.0.1:3000`).
