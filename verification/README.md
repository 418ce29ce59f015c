# easy_proxy

A transparent proxy. The packet filter redirects TCP connections to a local endpoint; the
proxy asks the system where each connection was headed and passes it on through a SOCKS5
server or through an HTTP server that takes CONNECT requests.

`src/` is a library verified with Verus. It does no I/O: each state machine in it takes what
happened and says what to do next.

| module      | what it holds                                                       |
|-------------|---------------------------------------------------------------------|
| `socks`     | SOCKS5 messages, and the dialogue with a SOCKS5 server               |
| `http`      | where an HTTP proxy server is, the way to it, and a CONNECT tunnel   |
| `zero_copy` | copying from one descriptor to another by way of a pipe              |
| `relay`     | the two copies of a tunnel, and how they end                         |
| `listener`  | finding out where a redirected connection was headed                 |
| `startup`   | from the command line to a running proxy                             |
| `fd`        | failed system calls and descriptor flags                             |
| `buffer`    | what is taken on trust of `bytes::BytesMut`                          |
| `addr`, `error`, `text` | addresses, sorts of failure, numbers in decimal          |

`app/` is the program: it owns the sockets, does what the library says, and tells it how that
went.
