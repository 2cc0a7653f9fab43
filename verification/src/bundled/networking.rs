//! The study notes of the Networking & Protocols module.
use vstd::prelude::*;
use crate::content::{ContentFile, ContentFileView};

verus! {
/// `api-protocols.md`.
pub const API_PROTOCOLS: &'static str = r##"---
title: "gRPC vs REST vs GraphQL"
tags: [grpc, rest, graphql, api-design, protobuf, http2, protocols]
difficulty: medium
estimated_time: 20min
---

## Overview

**REST (Representational State Transfer)** is the dominant API style for public-facing services. It uses HTTP verbs (`GET`, `POST`, `PUT`, `DELETE`) and URLs to represent resources. Responses are typically JSON. REST is stateless, cacheable, and widely understood — every language, framework, and tool supports it. Its weakness is **over-fetching** (getting more fields than needed) and **under-fetching** (needing multiple requests to assemble a view), and the lack of a strict contract makes client/server drift common without tooling.

**gRPC** (Google Remote Procedure Call) uses **Protocol Buffers** (`protobuf`) for schema definition and binary serialization, running over **HTTP/2**. You define services and messages in a `.proto` file; the compiler generates strongly-typed client and server stubs in any supported language. The result: significantly smaller payloads (binary vs JSON), multiplexed streams, bidirectional streaming support, and compile-time API contracts. gRPC is the standard for internal microservice communication at scale. Its weakness: no native browser support (requires grpc-web proxy), harder to debug (binary protocol), and tooling is heavier than REST.

**GraphQL** (Facebook, 2015) lets clients specify exactly which fields they want in a single query, solving REST's over/under-fetching problem. A single `/graphql` endpoint handles all queries and mutations. The schema is strongly typed and self-documenting via introspection. GraphQL is ideal for product APIs consumed by multiple clients (web, mobile, third-party) with varying data needs. Its weaknesses: query complexity can be unbounded (N+1 query problem, deeply nested queries), caching is harder (POST requests are not cached by CDNs by default), and schema evolution requires careful management.

```
REST vs gRPC vs GraphQL Comparison:

Feature           REST              gRPC              GraphQL
-----------       ----              ----              -------
Protocol          HTTP/1.1 or 2     HTTP/2 only       HTTP/1.1 or 2
Payload           JSON (text)       Protobuf (binary) JSON (text)
Schema/Contract   Optional (OAS)    Required (.proto) Required (SDL)
Type Safety       Loose             Strong (compiled) Strong (runtime)
Browser Support   Native            grpc-web proxy    Native
Streaming         No (SSE/WS side)  Bidirectional     Subscriptions
Caching           HTTP cache        Limited           Complex (POST)
Debugging         curl, Postman     grpcurl, Evans    GraphiQL, Apollo
Best For          Public APIs       Internal services Flexible clients
Over-fetching     Yes               Yes               No
Code Gen          Optional          Required          Optional

gRPC Streaming Modes:
  Unary:              Client req -> Server resp  (like REST)
  Server streaming:   Client req -> Server stream (like SSE)
  Client streaming:   Client stream -> Server resp
  Bidirectional:      Client stream <-> Server stream (like WebSocket)

REST Resource Example:
  GET  /users/123          -> {id, name, email, address, orders...}
  GET  /users/123/orders   -> [{id, items, total...}, ...]
  (2 requests; may over-fetch fields you don't need)

GraphQL Equivalent:
  POST /graphql
  { user(id: "123") { name orders { id total } } }
  -> exactly {name, orders: [{id, total}]}
  (1 request; exactly the fields requested)
```

## When to Use

- **REST**: Public APIs, third-party integrations, any API consumed by unknown clients. Default choice when interoperability and simplicity matter. Well-understood HTTP caching applies directly.
- **gRPC**: Internal service-to-service communication, polyglot microservices (one `.proto` defines the contract for all languages), high-throughput services where protobuf's smaller payload size matters, or where bidirectional streaming is needed.
- **GraphQL**: Product APIs serving multiple client types (iOS app, Android app, web app) with different data shapes. BFF (Backend for Frontend) pattern where a GraphQL layer aggregates multiple downstream REST/gRPC services. Also excellent for rapid product iteration where the data graph changes frequently.
- **When to combine**: Use gRPC internally between services for efficiency; expose a REST or GraphQL API externally for consumers. This is standard practice — gRPC for the data plane, REST/GraphQL for the API plane.

## Trade-offs & Gotchas

- **N+1 problem in GraphQL**: Naively resolving a list of users, each with their orders, triggers one DB query per user. Solution: **DataLoader** pattern (batch and deduplicate DB calls within a single request). Critical to implement before exposing GraphQL to production traffic.
- **Query depth and complexity limits**: A malicious or careless GraphQL query can request deeply nested data and exhaust your database. Enforce depth limits (max 10 levels) and complexity scoring (each field costs points, reject queries over a budget).
- **Protobuf schema evolution**: Fields are identified by number, not name, enabling backward compatibility. Never reuse field numbers. Use `reserved` for deleted fields. New fields must be optional to remain forward-compatible with old clients.
- **gRPC error model** is richer than HTTP status codes: 16 canonical status codes (`OK`, `NOT_FOUND`, `UNAVAILABLE`, `DEADLINE_EXCEEDED`, etc.). Map these correctly — don't return `UNKNOWN` for everything.
- **REST versioning**: URL versioning (`/v1/`, `/v2/`) is most visible and cache-friendly. Header versioning (`Accept: application/vnd.api+json;version=2`) is more RESTful but harder to route. Avoid versioning the entire API; prefer additive changes and deprecate fields explicitly.
- **GraphQL and caching**: Since queries are typically `POST`, HTTP caching doesn't apply. Use persisted queries (hash the query, send the hash) to enable GET-based caching. Apollo Client and Relay handle client-side caching via normalized stores.
- **gRPC in the browser**: Browsers cannot speak gRPC directly (HTTP/2 trailers not accessible via Fetch API). Use **gRPC-web** (transcoding proxy, e.g., Envoy) or **Connect** (Buf's protocol that works natively in browsers).

## Key Points for Interviews

- REST = resource-based, JSON, HTTP verbs, widely supported, cacheable, no strict contract by default.
- gRPC = protobuf schema, HTTP/2, binary payload, strongly typed, code generation, bidirectional streaming. Best for internal services.
- GraphQL = client-specified queries, single endpoint, no over/under-fetching, strong schema. Best for product APIs with diverse clients.
- Always mention N+1 + DataLoader when GraphQL is discussed — it's the most common production pitfall.
- gRPC protobuf is ~5-10x smaller and faster to parse than equivalent JSON — significant at high RPC rates.
- Combination pattern: gRPC internal + REST/GraphQL external is standard in FAANG-scale systems.
- gRPC streaming replaces WebSockets for bidirectional communication in service-to-service scenarios.
"##;
/// `cdn.md`.
pub const CDN: &'static str = r##"---
title: "CDN: Edge Caching and Content Delivery"
tags: [cdn, edge-caching, cache-invalidation, origin-pull, origin-push, hls, dash, video-streaming]
difficulty: medium
estimated_time: 20min
---

## Overview

A **CDN (Content Delivery Network)** is a globally distributed network of **edge nodes (PoPs — Points of Presence)** that cache content close to users, reducing latency and offloading traffic from origin servers. Instead of every user in Tokyo hitting your origin in us-east-1, a Tokyo edge node serves the cached response. CDNs are the standard solution for serving static assets (images, JS, CSS), large file downloads, and video streams at scale. Major providers: **Cloudflare**, **AWS CloudFront**, **Fastly**, **Akamai**.

**Origin pull** (lazy caching) is the default model: on a cache miss, the edge fetches from origin, caches the response, and serves it to the user. Subsequent requests from the same edge hit the cache. **Origin push** (eager caching) is used for content that must be globally warm before requests arrive — you explicitly push content to edge nodes. Push is common for software releases, large media uploads, or predictable traffic spikes. Most CDNs (CloudFront, Fastly) are pull-based by default; Akamai and some enterprise CDNs support push.

**Cache invalidation** is notoriously hard. The CDN respects `Cache-Control` headers from origin (e.g., `max-age=86400`). To invalidate before TTL expires: (1) create a CloudFront invalidation API call (costs money per path), (2) use **cache-busting** — embed a content hash in the filename (`app.a3f9d2c.js`) so every deploy creates a new URL with no prior cache entry, (3) use surrogate keys / cache tags (Fastly, Cloudflare) to tag multiple cached objects with a logical key and purge by tag atomically.

```
Origin Pull Flow (Cache Miss then Cache Hit):

  [User in Tokyo] -> [Tokyo Edge PoP]
                          |
                     cache miss?
                          |  YES
                    [Fetch from Origin us-east-1]
                          |
                     cache response (TTL=86400)
                          |
                    [Serve to User]  (high latency, 1 time)

  Next request from Tokyo:
  [User in Tokyo] -> [Tokyo Edge PoP]
                          |
                     cache HIT -> serve immediately (low latency)

Cache Hierarchy (some CDNs use 2 tiers):
  [User] -> [L1 Edge PoP] -> [L2 Shield/Mid-Tier] -> [Origin]
  Shield concentrates origin requests, improves cache hit rate

CDN Cache-Control Headers:
  Cache-Control: public, max-age=31536000, immutable
    -> browser + CDN cache for 1 year, never revalidate
  Cache-Control: no-cache
    -> always revalidate with origin (ETag/If-None-Match)
  Cache-Control: no-store
    -> do not cache anywhere (sensitive data)
  Surrogate-Control: max-age=86400
    -> CDN-only TTL (stripped before sending to browser)

Video Streaming: HLS vs DASH:
  HLS  (Apple)  : .m3u8 manifest + .ts  segments (MPEG-TS)
  DASH (MPEG)   : .mpd  manifest + .mp4 segments (fMP4)
  Both: segment content (2-10s chunks) served via CDN
  ABR (Adaptive Bitrate): player selects quality based on bandwidth
    320p -> 480p -> 720p -> 1080p -> 4K
  CDN role: cache segments at edge, reduce origin load,
            deliver segments with low latency for live streams
```

## When to Use

- **Static assets**: Always serve CSS, JS, images, fonts via CDN with long TTLs + cache-busting hashes. `Cache-Control: public, max-age=31536000, immutable`.
- **API responses**: Cacheable GET responses with `Cache-Control: public, max-age=60` work well at CDN level for read-heavy endpoints (product catalogs, leaderboards). Use Vary headers carefully — `Vary: Accept-Encoding` is safe; `Vary: Cookie` essentially disables caching.
- **Video on demand (VOD)**: HLS or DASH segments cached at CDN. Set long TTLs on segments (immutable), short TTL on the manifest file (it changes as new segments are added in live streams).
- **Live streaming**: Low-latency HLS (`LL-HLS`) or CMAF-CTE reduces segment size to <1s. CDN must support short TTLs and efficient origin shielding for live content.
- **DDoS mitigation**: CDN absorbs volumetric attacks at the edge before traffic reaches origin. Enable CDN in front of your origin as a default security measure.
- **Origin shield**: Enable CDN's mid-tier caching layer (CloudFront Origin Shield, Fastly shielding) to collapse origin requests from all edge nodes through a single regional cache — dramatically reduces origin load.

## Trade-offs & Gotchas

- **Cache invalidation timing**: CloudFront invalidations take ~60s to propagate globally. Fastly instant purge is <150ms globally. If consistency matters, design for cache-busting rather than invalidation.
- **Vary header explosion**: `Vary: User-Agent` creates a separate cache entry per browser — effectively disables caching. Never use Vary on high-cardinality headers. `Vary: Accept-Encoding` (for gzip/brotli) is the safe standard.
- **Private vs public content**: CDNs should never cache responses containing user-specific data. Use `Cache-Control: private` for authenticated responses, or move user-specific data to client-side rendering.
- **Geo-blocking and compliance**: CDNs can enforce GDPR geo-restrictions at the edge without hitting origin. CloudFront geo-restriction, Cloudflare Access Rules.
- **SSL/TLS at edge**: CDN terminates TLS at the edge PoP (closer to user = lower handshake latency). The CDN-to-origin connection can be HTTP or HTTPS; use HTTPS for origin-pull to prevent snooping on the backhaul.
- **Warm-up time for new PoPs**: On first deploy or after a cold cache, origin receives full load while CDN populates. Plan for origin capacity to handle 100% traffic, even when CDN hit rate is normally 95%+.
- Cache hit rate is the key CDN metric. A 90% hit rate means origin handles 10% of traffic. A 70% hit rate may not justify CDN costs — review TTLs and caching strategy.

## Key Points for Interviews

- CDN = distributed edge caches; reduces origin load, improves latency, absorbs DDoS.
- Origin pull (lazy) vs origin push (eager, for pre-warming). Pull is default; push for predictable large-content deploys.
- Cache invalidation strategies: TTL expiry, file hash in URL (cache-busting), surrogate keys / cache tags (Fastly/Cloudflare), explicit invalidation API.
- HLS and DASH are segmented streaming formats. CDN caches segments; manifest files have short TTLs for live streams.
- `Cache-Control: public, max-age=31536000, immutable` for versioned static assets. `private` for user-specific responses.
- Origin Shield / mid-tier caching collapses parallel edge misses to a single origin request — critical for high-traffic deploys.
- Cache hit rate is the metric. Low hit rate = wasted CDN cost. Tune TTLs and avoid Vary on high-cardinality headers.
"##;
/// `dns.md`.
pub const DNS: &'static str = r##"---
title: "DNS Resolution Flow"
tags: [dns, networking, resolution, records, ttl, routing]
difficulty: easy
estimated_time: 15min
---

## Overview

**DNS (Domain Name System)** translates human-readable domain names (`api.example.com`) into IP addresses. It is a globally distributed, hierarchically organized database. DNS is almost always the first step in any network request — a slow or misconfigured DNS can make an otherwise performant system feel broken. DNS records are cached at multiple levels (OS resolver, browser, recursive resolver) according to their **TTL (Time to Live)** value.

The resolution flow involves four actors. The **DNS recursive resolver** (provided by your ISP, Google `8.8.8.8`, Cloudflare `1.1.1.1`, or your corporate DNS) does the heavy lifting on the client's behalf. The **root nameservers** (13 logical clusters, operated by IANA) answer with the address of the **TLD nameserver** (e.g., `.com`, `.io`). The TLD nameserver answers with the **authoritative nameserver** for the domain, which holds the actual records (A, CNAME, MX, etc.) and returns the final answer.

Key record types: **A** (domain -> IPv4), **AAAA** (domain -> IPv6), **CNAME** (alias to another domain — cannot be used at zone apex), **ALIAS/ANAME** (like CNAME but allowed at apex — AWS Route 53 `ALIAS` record), **MX** (mail server), **TXT** (arbitrary text — SPF, DKIM, domain verification), **NS** (nameserver delegation), **SRV** (service discovery, used by some protocols), **PTR** (reverse DNS — IP to hostname).

```
DNS Resolution: Querying "api.example.com" (cache miss):

  [Browser / App]
       |
  1. Check OS cache (hosts file, /etc/hosts, nscd)
       |  (cache miss)
  2. Query Local Recursive Resolver (e.g., 1.1.1.1)
       |  (cache miss at resolver)
  3. Resolver queries Root Nameserver (".")
       |  <-- "ask .com TLD at 192.5.6.30"
  4. Resolver queries .com TLD Nameserver
       |  <-- "ask example.com NS at 205.251.196.1"
  5. Resolver queries example.com Authoritative NS
       |  <-- "api.example.com A 93.184.216.34 TTL=300"
  6. Resolver caches and returns answer to client
       |
  [Browser connects to 93.184.216.34]

  Total round trips: ~3-4 (all cached after first resolution)
  Cached resolution: ~1ms (resolver cache hit)
  Full recursive resolution: ~50-150ms

Record Types Quick Reference:
  A       example.com   -> 93.184.216.34        (IPv4)
  AAAA    example.com   -> 2606:2800:220:1::...  (IPv6)
  CNAME   api.example.com -> lb.example.com     (alias, no apex)
  ALIAS   example.com   -> lb.example.com       (apex-safe CNAME)
  MX      example.com   -> mail.example.com     (email)
  TXT     example.com   -> "v=spf1 include:..."  (SPF/DKIM)
  NS      example.com   -> ns1.example.com      (delegation)
```

## When to Use

- **Low TTL (30-60s)**: During deployments, blue/green switches, or failover events where you need DNS changes to propagate quickly. Low TTL increases resolver query volume.
- **High TTL (300-3600s)**: Stable infrastructure where change is infrequent. Reduces resolver load and improves client-side latency (more cache hits).
- **Route 53 / Cloud DNS for latency routing**: Route users to the nearest region based on their resolver's location. Combine with health checks to automate failover.
- **Private DNS / internal DNS**: Route internal service names (`payments-service.internal`) to private IPs without exposing them publicly. AWS Route 53 Private Hosted Zones, CoreDNS in Kubernetes.
- **CNAME vs ALIAS**: Use ALIAS at the zone apex (naked domain `example.com`) pointing to an ALB or CloudFront. CNAME cannot be used at the apex due to RFC constraints.

## Trade-offs & Gotchas

- **DNS propagation is not instant**: TTL controls how long resolvers cache records. To reduce downtime during a cutover, lower TTL to 60s 24-48 hours *before* the change; raise it back after the change stabilizes.
- **Negative TTL (NXDOMAIN caching)**: If a hostname doesn't exist, resolvers cache that negative response for the SOA record's `MINIMUM` TTL. Creating a new record doesn't immediately fix "NXDOMAIN" errors seen by clients.
- DNS does not guarantee a single IP — responses can include multiple A records. Clients typically use the first; the OS or resolver may rotate them (round-robin DNS). This is a rudimentary load balancing mechanism.
- **Split-horizon DNS**: Different answers for internal vs external clients. Used to expose `api.example.com` as a public IP externally and a private IP internally.
- DNS over HTTPS (DoH) and DNS over TLS (DoT) encrypt DNS queries — prevents ISP snooping and manipulation, but may conflict with corporate DNS filtering.
- `dig +trace api.example.com` walks the full resolution chain from root — the essential debugging tool. `nslookup` is available everywhere but less informative.
- DNS is UDP by default (port 53). Responses > 512 bytes fall back to TCP. DNSSEC and large TXT records frequently trigger TCP fallback.

## Key Points for Interviews

- DNS resolution: client -> recursive resolver -> root NS -> TLD NS -> authoritative NS -> answer (3-4 round trips on cache miss, ~1ms on cache hit).
- TTL controls propagation speed. Lower TTL before planned changes; raise it back after.
- Record types: A (IPv4), AAAA (IPv6), CNAME (alias, not at apex), ALIAS (apex-safe), MX (mail), TXT (SPF/DKIM/verification), NS (delegation).
- Route 53 health checks + DNS failover = auto-routing around failed regions.
- Private hosted zones / CoreDNS handle service discovery in VPCs and Kubernetes clusters.
- Debugging commands: `dig +trace`, `nslookup`, `host`. Always check TTL when records seem stale.
- DNS is a common single point of failure — mention redundant resolvers, Anycast-based DNS providers (Route 53, Cloudflare), and low TTL strategy for failover.
"##;
/// `http-versions.md`.
pub const HTTP_VERSIONS: &'static str = r##"---
title: "HTTP/1.1 vs HTTP/2 vs HTTP/3"
tags: [http, http2, http3, quic, performance, web-protocols]
difficulty: medium
estimated_time: 20min
---

## Overview

**HTTP/1.1** (1997) is the baseline. Each request/response pair uses a separate TCP connection by default, though `Connection: keep-alive` allows reuse. Browsers open 6-8 parallel connections per origin to work around the single-request-per-connection limitation. This is wasteful (multiple TCP handshakes, multiple TLS handshakes) and still suffers from head-of-line blocking within each connection.

**HTTP/2** (2015) multiplexes multiple request/response streams over a single TCP connection using binary framing, eliminating the need for multiple connections and enabling server push. It also compresses headers with `HPACK`, reducing overhead for repetitive headers (cookies, `User-Agent`). HTTP/2 is the current standard for browser-to-server communication and is widely supported. However, it inherits TCP's head-of-line blocking problem: a single lost TCP segment stalls all multiplexed streams until retransmission completes.

**HTTP/3** (2022, RFC 9114) replaces TCP with **QUIC** (built on UDP). QUIC implements per-stream reliability, so a lost packet only stalls the stream it belongs to, not all streams. QUIC also combines the transport handshake and TLS 1.3 negotiation, achieving **0-RTT** connection establishment for resuming sessions and **1-RTT** for new connections (vs TCP+TLS 1.3's 2-RTT minimum). HTTP/3 is now supported by all major browsers and CDNs.

```
Connection Model Comparison:

HTTP/1.1 (6 parallel connections per origin):
  Conn1: [GET /]          -> response
  Conn2: [GET /style.css] -> response
  Conn3: [GET /app.js]    -> response
  ... (head-of-line blocking within each conn)

HTTP/2 (1 connection, multiplexed streams):
  Single TCP conn:
    Stream 1: [GET /]           \
    Stream 3: [GET /style.css]   > interleaved frames
    Stream 5: [GET /app.js]     /
  (BUT: lost TCP packet stalls ALL streams)

HTTP/3 (1 QUIC connection, independent streams):
  Single QUIC/UDP conn:
    Stream 1: [GET /]           \
    Stream 2: [GET /style.css]   > lost packet only stalls its own stream
    Stream 3: [GET /app.js]     /

Handshake Latency:
  HTTP/1.1 + TLS 1.2: TCP(1.5 RTT) + TLS(2 RTT) = 3.5 RTT
  HTTP/2  + TLS 1.3:  TCP(1.5 RTT) + TLS(1 RTT) = 2.5 RTT
  HTTP/3  + QUIC:     QUIC+TLS combined = 1 RTT (0-RTT on resume)
```

## When to Use

- **HTTP/1.1**: Legacy systems, simple internal tools, or any environment where HTTP/2 support is uncertain. Still perfectly valid for server-to-server communication with connection pooling.
- **HTTP/2**: The default choice for public-facing APIs and web applications. Nginx, Envoy, and all major cloud load balancers support it. Always enable HTTP/2 between clients and your edge.
- **HTTP/3**: High-priority for latency-sensitive applications, mobile clients (frequent network switching), or any service where packet loss is common (cellular, satellite). Enable at CDN/edge layer first — CloudFront, Cloudflare, and Fastly all support HTTP/3.
- **gRPC**: Uses HTTP/2 for transport — you get multiplexing and binary framing for free. HTTP/3 support in gRPC is still maturing.

## Trade-offs & Gotchas

- HTTP/2 server push was theoretically compelling but largely deprecated in practice — browsers removed support for it. Preload hints (`<link rel="preload">`) accomplish the same goal without the complexity.
- HTTP/2 over high-loss networks can be *slower* than HTTP/1.1 with multiple connections, because a single lost TCP segment stalls all streams vs only one of six parallel HTTP/1.1 connections. HTTP/3 was designed specifically to fix this.
- **HPACK** (HTTP/2 header compression) maintains dynamic tables per connection — state that must be synchronized. If a connection is torn down, the table is lost. **QPACK** (HTTP/3) solves this with a non-blocking design.
- QUIC runs over UDP port 443. Some corporate firewalls block UDP 443, causing HTTP/3 to fall back to HTTP/2 (`Alt-Svc` header negotiation). Always implement graceful fallback.
- HTTP/2 requires TLS in practice (browsers enforce it). HTTP/3 always requires TLS — QUIC has encryption built in, there is no unencrypted HTTP/3.
- `HTTP/2 cleartext (h2c)` exists for non-TLS environments (internal service meshes) but is not supported by browsers.
- **Connection coalescing**: HTTP/2 clients may share a single connection across different hostnames that resolve to the same IP and share a TLS certificate (wildcard or SAN) — reduces connection count further.

## Key Points for Interviews

- HTTP/1.1 = one request per connection (with keep-alive, serialized). HTTP/2 = multiplexed streams on one TCP conn. HTTP/3 = multiplexed streams on QUIC (UDP).
- HTTP/2 solves application-level head-of-line blocking; HTTP/3 solves transport-level head-of-line blocking.
- HTTP/3 / QUIC = 0-RTT resumption, connection migration (IP change doesn't drop the session — critical for mobile).
- Always mention HTTP/3 when discussing CDNs, mobile performance, or last-mile optimization.
- HPACK (H2) / QPACK (H3) header compression is important for reducing overhead on high-request-rate APIs with repetitive headers.
- For system design: use HTTP/2 between services internally; push HTTP/3 at the edge for client-facing traffic.
"##;
/// `https-tls.md`.
pub const HTTPS_TLS: &'static str = r##"---
title: "HTTPS and TLS Handshake"
tags: [https, tls, ssl, security, encryption, certificates, pki]
difficulty: medium
estimated_time: 20min
---

## Overview

**HTTPS** is HTTP over **TLS (Transport Layer Security)**. TLS provides three guarantees: **confidentiality** (traffic is encrypted, unreadable to eavesdroppers), **integrity** (traffic cannot be tampered with undetected via MAC/AEAD), and **authentication** (the server's identity is verified via a certificate signed by a trusted CA). TLS 1.3 (RFC 8446, 2018) is the current standard; TLS 1.0 and 1.1 are deprecated and disabled in modern clients.

The **TLS handshake** establishes a shared session key using asymmetric cryptography, then switches to symmetric encryption for the actual data transfer. In TLS 1.3, this is accomplished in a single round trip (1-RTT): the client sends supported cipher suites and a key share in the `ClientHello`; the server responds with its chosen cipher, its own key share, and its certificate; the client verifies the certificate against trusted CAs and both sides derive the same session key via **ECDHE (Elliptic Curve Diffie-Hellman Ephemeral)**. No private key material is ever transmitted — **forward secrecy** ensures that compromising the server's private key later cannot decrypt past sessions.

A **certificate** binds a public key to a domain name, signed by a **Certificate Authority (CA)**. The browser/OS ships with a list of trusted root CAs. Intermediate CAs form a chain of trust. **Let's Encrypt** provides free DV (Domain Validation) certificates via the ACME protocol. **mTLS (mutual TLS)** extends this: the client also presents a certificate, enabling strong service-to-service authentication in zero-trust architectures (used by service meshes like Istio/Envoy).

```
TLS 1.3 Handshake (1-RTT):

  Client                              Server
    |                                    |
    |  ------- ClientHello ----------->  |
    |  (supported ciphers, key_share,    |
    |   TLS version, random nonce)       |
    |                                    |
    |  <------ ServerHello -----------  |
    |  (chosen cipher, key_share,        |
    |   Certificate, CertificateVerify, |
    |   Finished)                        |
    |                                    |
    |  (client verifies cert chain,      |
    |   both derive session key via ECDHE)|
    |                                    |
    |  ------- Finished + HTTP req --->  |  <-- data starts here (1-RTT)
    |  <------ HTTP response ----------  |

TLS 1.3 0-RTT (Session Resumption):
  Client sends PSK (pre-shared key from previous session)
  + early data (HTTP request) in ClientHello
  Server can respond immediately if PSK is valid
  Risk: 0-RTT data has no replay protection -- avoid for non-idempotent requests

Certificate Chain of Trust:
  Root CA (trusted by OS/browser)
      |
  Intermediate CA (signed by root)
      |
  Server Certificate (signed by intermediate,
                      contains domain name + public key)
```

## When to Use

- **HTTPS everywhere**: There is no legitimate reason to serve public traffic over plain HTTP in 2024. Browsers mark HTTP sites as insecure, and HTTP/2 requires TLS.
- **mTLS**: Service-to-service authentication in microservices / zero-trust networks. Service mesh sidecars (Envoy/Istio) handle mTLS transparently without application code changes.
- **TLS termination at the load balancer**: Decrypt at the edge (ALB, Nginx), forward plaintext over a trusted internal network. Simpler certificate management, backend servers handle less crypto load.
- **End-to-end TLS (re-encryption)**: Terminate and re-encrypt between each hop. Required for compliance scenarios (PCI-DSS, HIPAA) where traffic must be encrypted even on internal networks.
- **Certificate pinning**: Mobile apps that pin the expected certificate or public key to prevent MITM via rogue CAs. Use with care — a certificate rotation without updating the app breaks it.

## Trade-offs & Gotchas

- TLS 1.3 is strictly better than TLS 1.2: faster (1-RTT vs 2-RTT), removed weak cipher suites (RC4, 3DES, RSA key exchange without forward secrecy). Always enforce TLS 1.2 minimum; prefer TLS 1.3 only.
- **OCSP stapling**: Instead of the client querying the CA's OCSP server to check if a certificate is revoked (adding latency and a privacy leak), the server periodically fetches and caches ("staples") the OCSP response and sends it during the TLS handshake.
- **SNI (Server Name Indication)**: TLS extension that allows the client to specify the hostname in the ClientHello before the handshake completes, enabling a single IP to host multiple TLS certificates (virtual hosting). Without SNI, you need one IP per certificate.
- **Wildcard certificates** (`*.example.com`) cover one subdomain level. They cannot cover `api.v2.example.com`. **SAN (Subject Alternative Name)** certificates explicitly list multiple domains.
- Certificate rotation is an operational concern: automate with Let's Encrypt + Certbot or AWS Certificate Manager (ACM). ACM auto-rotates certs on ALB/CloudFront with zero downtime.
- `HSTS (HTTP Strict Transport Security)` header tells browsers to only connect via HTTPS for a given duration — prevents SSL-stripping attacks. Include `includeSubDomains` and preload to `hstspreload.org` for maximum effect.
- CPU cost of TLS is negligible on modern hardware with AES-NI instructions — do not omit TLS for "performance" reasons.

## Key Points for Interviews

- TLS provides confidentiality, integrity, and server authentication. mTLS adds client authentication.
- TLS 1.3 handshake = 1-RTT (vs TLS 1.2's 2-RTT). 0-RTT is possible on session resumption but vulnerable to replay attacks.
- ECDHE provides **forward secrecy** — compromising the private key does not decrypt past sessions.
- TLS termination at the load balancer is standard; re-encryption (end-to-end TLS) is required for stricter compliance scenarios.
- Certificate chain: server cert -> intermediate CA -> root CA. Browser trusts the root, validates the chain.
- SNI enables multiple domains on one IP. OCSP stapling reduces handshake latency. HSTS prevents downgrade attacks.
- In zero-trust / service mesh architectures, mTLS is the standard — mention Istio, Envoy, or Linkerd.
"##;
/// `load-balancing-algorithms.md`.
pub const LOAD_BALANCING_ALGORITHMS: &'static str = r##"---
title: "Load Balancing Algorithms"
tags: [load-balancing, round-robin, consistent-hashing, least-connections, geographic-routing]
difficulty: medium
estimated_time: 20min
---

## Overview

The load balancing algorithm determines *which* backend server handles each incoming request. The right algorithm depends on the nature of your workload: are requests uniform in cost? Do clients need affinity to a specific server? Is the backend pool static or frequently changing? Choosing the wrong algorithm causes uneven load distribution, hot spots, or cache inefficiency even when you have plenty of total capacity.

**Round Robin** cycles through servers sequentially — simple and even when requests are homogeneous. **Weighted Round Robin** assigns proportional shares (useful for heterogeneous instances or canary deployments). **Least Connections** routes to the server with the fewest active connections, which handles variable-cost requests better than round robin but requires connection count tracking. **Least Response Time** combines active connections with observed latency — used in Envoy's `LEAST_REQUEST` with active health metrics.

**Consistent Hashing** maps both servers and requests onto a virtual ring using a hash function. Each request is routed to the nearest server clockwise on the ring. Adding or removing a server only remaps a fraction (`1/n`) of keys instead of rehashing everything — critical for cache servers, session stores, and stateful services. **Geographic / Latency-based routing** uses the client's location (IP geolocation or resolver location) to route to the nearest region — a DNS-level decision, not a per-request algorithm.

```
Round Robin:
  Request 1 -> Server A
  Request 2 -> Server B
  Request 3 -> Server C
  Request 4 -> Server A  (wraps around)

Weighted Round Robin (A=50%, B=30%, C=20%):
  Requests: A A A B B C A A A B B C ...

Least Connections:
  Server A: 10 active conns
  Server B:  3 active conns  <-- next request goes here
  Server C:  7 active conns

Consistent Hashing Ring:
        [Server A at hash 100]
       /                      \
  [ring 0]                [ring 300]
       \                      /
        [Server B at hash 200]

  Request hash=150 --> Server B (nearest clockwise)
  Request hash=350 --> Server A (wraps to start)

  Adding Server D at hash 250:
    Only requests in (200, 250] remapped from B to D
    All other requests unchanged

Virtual nodes (vnodes):
  Each physical server appears N times on the ring (e.g., N=150)
  Improves uniform distribution when server count is small
```

## When to Use

- **Round Robin**: Stateless services with homogeneous request cost (API servers, web servers). The default and simplest choice — use it unless you have a specific reason not to.
- **Weighted Round Robin**: Mixed-capacity backend fleet, canary deployments (5% weight to new version), or spot/on-demand instance mixing.
- **Least Connections**: Long-lived connections (WebSockets, gRPC streaming, database proxies) or highly variable request durations (ML inference, report generation). Avoids hot spots that round robin creates when some requests take 100x longer than others.
- **Consistent Hashing**: Distributed caches (Memcached, Redis Cluster), session affinity without sticky cookies, sharded services where a given key must always reach the same shard. Essential for cache hit rate — random routing degrades cache efficiency linearly with server count.
- **Geographic routing**: Multi-region systems where latency to the user dominates (Route 53 latency routing, Cloudflare Traffic Manager, Anycast). DNS-level, not per-request.
- **Random with two choices (Power of Two)**: Pick two random servers, route to the one with fewer connections. Achieves near-optimal distribution with O(1) overhead — used in large-scale proxy systems.

## Trade-offs & Gotchas

- Round robin breaks down when requests have highly variable cost — a few slow requests can saturate one server while others are idle.
- Consistent hashing requires virtual nodes (vnodes) for even distribution with small cluster sizes. Without them, physical servers cluster unevenly on the ring due to hash function variance.
- Hot keys in consistent hashing: a single extremely popular key cannot be load-balanced across servers (it always maps to one server). Solutions: key replication, dedicated shard, or client-side request sharding with a multiplier.
- Sticky sessions (IP hash, cookie-based affinity) couple clients to specific backends, making it harder to scale down or replace instances without disrupting active sessions. Prefer stateless backends.
- Least Connections requires a centralized counter or gossip-based coordination in distributed load balancers. Approximate counts (per-process, not global) are common — accurate enough in practice.
- **Rendezvous hashing (HRW)** is an alternative to consistent hashing that doesn't require a ring: for each key, compute `hash(key, server_id)` for all servers and pick the highest. Simpler but O(n) per lookup — practical for small server sets.
- Geographic routing introduces complexity: you need health checks per region and failover logic (if the nearest region is down, route to the next nearest).

## Key Points for Interviews

- Round Robin = simplest, good for homogeneous stateless workloads. Least Connections = better for variable-cost requests.
- Consistent Hashing = essential for distributed caches. Adding/removing nodes remaps only `1/n` of keys. Vnodes improve distribution.
- Hot key problem in consistent hashing: a viral key always maps to one server — mention replication or special handling.
- Geographic routing is DNS-level (Route 53 latency routing) — not per-request; TTL-bounded responsiveness.
- Power of Two random choices achieves near-perfect balancing with minimal overhead — worth mentioning for large-scale systems.
- Weighted routing enables canary deploys: send 1-5% to new version, observe error rates, then ramp up.
- For stateful services (caches, sessions), consistent hashing is the right default. For stateless services, round robin or least connections.
"##;
/// `osi-model.md`.
pub const OSI_MODEL: &'static str = r##"---
title: "OSI Model"
tags: [osi, networking, layers, tcp-ip, protocols]
difficulty: easy
estimated_time: 15min
---

## Overview

The **OSI (Open Systems Interconnection) model** is a 7-layer conceptual framework that standardizes how network communication is decomposed into discrete responsibilities. Each layer serves the layer above it and is served by the layer below it. In practice, most engineers work with the TCP/IP model (4 layers), but OSI vocabulary is universal in system design discussions — especially when distinguishing L4 vs L7 load balancing, or diagnosing where a failure occurred.

The layers from bottom to top: **Physical** (bits over wire/radio), **Data Link** (frames between adjacent nodes, MAC addresses), **Network** (IP routing between hosts), **Transport** (end-to-end delivery, ports, TCP/UDP), **Session** (connection lifecycle management), **Presentation** (encoding, encryption, compression), **Application** (HTTP, DNS, SMTP — what the user's software speaks).

In real systems, the Session and Presentation layers are largely collapsed into the Application layer. When engineers say "L4" they mean Transport (TCP/UDP), and "L7" means Application (HTTP/gRPC). These two are the layers that matter most for infrastructure decisions.

```
OSI Layer Reference:
+-----+-------------+------------------+-----------------------------+
| No. | Name        | Unit             | Example Protocols           |
+-----+-------------+------------------+-----------------------------+
|  7  | Application | Message/Data     | HTTP, DNS, SMTP, FTP, gRPC  |
|  6  | Presentation| Message/Data     | TLS/SSL, JPEG, JSON encoding |
|  5  | Session     | Message/Data     | TLS session, RPC sessions   |
|  4  | Transport   | Segment/Datagram | TCP, UDP, QUIC              |
|  3  | Network     | Packet           | IP, ICMP, BGP, OSPF         |
|  2  | Data Link   | Frame            | Ethernet, Wi-Fi (802.11)    |
|  1  | Physical    | Bits             | Copper, fiber, radio waves  |
+-----+-------------+------------------+-----------------------------+

TCP/IP Model Mapping:
OSI L7+L6+L5 --> TCP/IP Application Layer
OSI L4        --> TCP/IP Transport Layer
OSI L3        --> TCP/IP Internet Layer
OSI L2+L1     --> TCP/IP Network Access Layer
```

## When to Use

- **L4 vs L7 decisions**: When discussing load balancers, firewalls, or proxies, always specify which layer they operate at. L4 = fast, protocol-agnostic; L7 = content-aware, more flexible.
- **Firewall rules**: Security groups and NACLs operate at L3/L4 (IP/port). WAFs operate at L7 (HTTP headers, body).
- **Debugging**: "Is this a network problem or an application problem?" maps directly to which OSI layer is failing — packet loss is L1/L2/L3, connection refused is L4, HTTP 500 is L7.
- **Protocol selection**: Choosing between TCP and UDP, or between REST and gRPC, is a L4 and L7 decision respectively.

## Trade-offs & Gotchas

- The OSI model is descriptive, not prescriptive — real protocols often blur layer boundaries. TLS spans L4-L6, QUIC combines L3/L4 transport with L7 concerns.
- "L3 load balancer" (IP-level) is rarely seen in cloud environments; L4 (NLB) and L7 (ALB) are the practical distinction.
- Encapsulation is the key mechanism: each layer wraps the payload from the layer above with its own header. A TCP segment is encapsulated in an IP packet, which is encapsulated in an Ethernet frame.
- **MTU (Maximum Transmission Unit)** is a Layer 2/3 concern. Ethernet MTU is 1500 bytes. TCP MSS (Maximum Segment Size) adjusts to avoid IP fragmentation — important for performance tuning and debugging `PMTUD` issues.
- Don't confuse the OSI model with the TCP/IP stack. Interviews that ask about "layers" almost always mean the TCP/IP stack in practice.

## Key Points for Interviews

- L4 (Transport) = TCP/UDP, identified by IP + port. L7 (Application) = HTTP, DNS, gRPC — content-aware.
- Load balancers: L4 routes by IP/port, L7 routes by URL path, headers, cookies.
- Firewalls/security groups operate at L3/L4; WAFs operate at L7.
- Encapsulation: each layer adds a header; each layer on the receiving side strips it.
- The mnemonic "Please Do Not Throw Sausage Pizza Away" (Physical, Data Link, Network, Transport, Session, Presentation, Application) is widely recognized — useful for quick recall under pressure.
- In cloud discussions: "below L7" typically means NLB/L4 behavior; "L7" means ALB/Nginx/Envoy behavior.
"##;
/// `proxies-gateways.md`.
pub const PROXIES_GATEWAYS: &'static str = r##"---
title: "Reverse Proxies and API Gateways"
tags: [reverse-proxy, api-gateway, nginx, envoy, kong, apigee, aws-api-gateway, service-mesh]
difficulty: medium
estimated_time: 20min
---

## Overview

A **reverse proxy** sits in front of backend servers, accepting client requests on their behalf. Unlike a forward proxy (which sits in front of clients and proxies their outbound traffic), a reverse proxy is transparent to the client — the client thinks it's talking directly to the service. Reverse proxies provide TLS termination, load balancing, request routing, compression, caching, and a choke point for cross-cutting concerns. **Nginx** and **Envoy** are the dominant open-source reverse proxies.

An **API Gateway** is a reverse proxy specialized for API management. Beyond basic routing, it adds: **authentication and authorization** (API keys, OAuth 2.0 / JWT validation), **rate limiting** (per-client, per-endpoint), **request/response transformation** (header manipulation, payload translation), **API versioning**, **analytics and billing metering**, and **developer portal** features. Managed options include **AWS API Gateway**, **Google Apigee**, and **Kong** (open-source with an enterprise tier). API Gateways are the standard entry point for external API consumers.

A **service mesh** (Istio, Linkerd) extends the reverse proxy pattern to service-to-service communication inside a cluster. Each service gets a sidecar proxy (Envoy) that handles mTLS, load balancing, circuit breaking, retries, and observability — without any application code changes. This separates infrastructure concerns (networking policy) from business logic, enabling consistent behavior across a polyglot microservice fleet.

```
Reverse Proxy Topology:

  [Internet]
      |
  [Reverse Proxy: Nginx / Envoy / ALB]
      |          |            |
  [Service A] [Service B] [Service C]

  Proxy responsibilities:
  - TLS termination (presents cert to client)
  - Routing (path/host-based)
  - Load balancing across service instances
  - Compression (gzip, brotli)
  - Request buffering (protect slow backends)
  - Access logging

API Gateway Topology:

  [External Client]
      |
  [API Gateway: Kong / Apigee / AWS API GW]
      |
  [Auth Plugin] --> validate JWT / API key
  [Rate Limit]  --> reject if over quota
  [Transform]   --> strip/add headers, map payload
      |
  [Backend Microservices]

Service Mesh Topology:

  [Service A] <--> [Envoy Sidecar A] <--> [Envoy Sidecar B] <--> [Service B]
                         |                         |
                   mTLS, retries,           mTLS, circuit break,
                   tracing, metrics         load balancing

  Control Plane (Istiod): distributes config to all sidecars
  Data Plane (Envoy): enforces it per-request
```

## When to Use

- **Nginx as reverse proxy**: TLS offload for any HTTP service, static file serving, simple path-based routing, rate limiting at the edge. Default choice for self-hosted infrastructure.
- **Envoy**: When you need dynamic configuration (xDS API), advanced load balancing algorithms, distributed tracing (Zipkin/Jaeger), or you're building a service mesh. Envoy is the data plane for Istio, AWS App Mesh, and Google Traffic Director.
- **Kong**: Self-hosted API gateway with a plugin ecosystem. Good for teams that want API gateway features without full vendor lock-in. Runs on top of Nginx (via OpenResty) or Envoy.
- **AWS API Gateway**: Fully managed, serverless-friendly (native Lambda integration), pay-per-request. Best for AWS-native architectures. Two variants: REST API (feature-rich, more expensive) and HTTP API (lower latency, cheaper, fewer features).
- **Apigee (Google)**: Enterprise API management — strong for organizations that need developer portals, API monetization, complex transformation, and multi-cloud policy enforcement. Common in financial services and telco.
- **Service mesh (Istio/Linkerd)**: When you need consistent mTLS, observability, and traffic policy across many services in Kubernetes and don't want to implement those concerns in each service. Adds operational complexity — worth it at 10+ services.

## Trade-offs & Gotchas

- **API Gateway as a bottleneck**: All traffic flows through the gateway — it must be highly available and sized for peak throughput. A misconfigured rate limit or auth plugin failure can take down your entire API. Deploy in multiple AZs, set generous timeouts, and circuit-break downstream failures.
- **Latency added by API Gateway**: Each plugin (auth, rate limiting, logging) adds latency. AWS API Gateway REST API adds ~5-10ms; HTTP API adds ~1ms. Kong with multiple plugins can add 5-20ms. Account for this in your SLA math.
- **AWS API Gateway vs ALB + custom auth**: API Gateway is convenient but expensive at high volume (pay per million requests). At sufficient scale, an ALB + Lambda authorizer or a self-hosted Kong on ECS may be cheaper. Do the math.
- **JWT validation at the gateway vs service**: Validating JWTs at the gateway (offloading from services) is standard, but the gateway must cache public keys (JWKS) to avoid hitting the identity provider on every request. Key rotation must propagate to the gateway.
- **Nginx config drift**: Nginx is configured via static files — changes require a reload (`nginx -s reload`). Envoy uses a dynamic xDS API — config changes apply in seconds without restarts. For rapidly changing routing rules, Envoy is operationally superior.
- **Service mesh overhead**: Each Envoy sidecar adds ~5-10ms per hop and ~50-100MB memory. In a call chain of 5 services, that's 25-50ms added. At low request rates it's negligible; at high concurrency it compounds. Measure before enabling mesh on latency-sensitive paths.
- **Egress control**: Reverse proxies/gateways typically handle *ingress*. Egress (outbound traffic from services to external APIs) is often uncontrolled. Service mesh sidecar proxies handle egress too — enforce egress policy to prevent data exfiltration and unintended external dependencies.

## Key Points for Interviews

- Reverse proxy = routing, TLS termination, load balancing, compression. Sits in front of backends.
- API Gateway = reverse proxy + auth, rate limiting, transformation, analytics. Entry point for external APIs.
- Kong = self-hosted, plugin-based, open-source. AWS API Gateway = managed, pay-per-request, Lambda-native. Apigee = enterprise, monetization, complex policy.
- Service mesh (Istio + Envoy sidecars) handles east-west (service-to-service) traffic; API gateway handles north-south (external-to-service).
- Envoy's xDS dynamic config is a major operational advantage over static Nginx config for frequently changing routing rules.
- JWT validation at the gateway offloads auth from every service — cache JWKS to avoid latency on every request.
- AWS API Gateway REST vs HTTP API: REST = more features, higher cost/latency. HTTP API = lower latency (~1ms added), cheaper, use it unless you need REST-specific features (caching, API key usage plans).
"##;
/// `tcp-vs-udp.md`.
pub const TCP_VS_UDP: &'static str = r##"---
title: "TCP vs UDP"
tags: [tcp, udp, transport-layer, networking, reliability]
difficulty: easy
estimated_time: 15min
---

## Overview

**TCP (Transmission Control Protocol)** and **UDP (User Datagram Protocol)** are the two dominant Layer 4 transport protocols. TCP provides a reliable, ordered, connection-oriented byte stream: it guarantees delivery via acknowledgments (`ACK`), retransmits lost segments, and uses flow control and congestion control to avoid overwhelming receivers or the network. The cost is connection setup overhead (3-way handshake) and head-of-line blocking — a lost packet stalls all subsequent data on that connection until retransmission succeeds.

**UDP** sends self-contained datagrams with no connection setup, no delivery guarantee, no ordering, and no congestion control. What you get in return is minimal latency overhead and the freedom to implement exactly the reliability semantics your application needs — or none at all. UDP is the foundation for DNS, streaming media, VoIP, online gaming, and QUIC (HTTP/3).

The right choice depends on whether **correctness** (every byte must arrive in order) or **timeliness** (the latest data matters more than past data) dominates your use case. A video call that stutters briefly is better than one that freezes waiting for a retransmit; a bank transfer that delivers data out of order is unacceptable.

```
TCP 3-Way Handshake:
  Client                    Server
    |  ------ SYN ------->   |
    |  <----- SYN-ACK ----   |
    |  ------ ACK ------->   |
    |  (connection open)      |
    |  ------ DATA ------>   |
    |  <----- ACK --------   |
    |  (reliable delivery)    |

UDP Datagram (no handshake):
  Client                    Server
    |  ------ DATA ------->  |   (may be lost)
    |  ------ DATA ------->  |   (may arrive out of order)
    |  (no ACK, no guarantee) |

TCP Connection Teardown (4-way):
  Client --> FIN --> Server
  Client <-- ACK <-- Server
  Client <-- FIN <-- Server
  Client --> ACK --> Server
  (TIME_WAIT state: 2*MSL before port reuse)
```

## When to Use

- **TCP**: Any protocol where correctness is paramount — HTTP/1.1, HTTP/2, database connections (`postgres://`, MySQL), SSH, SMTP, file transfers. If you can't tolerate data loss or reordering, use TCP.
- **UDP**: Latency-sensitive, real-time applications where a stale retransmit is worse than a gap — video/audio streaming, VoIP, online gaming (position updates), DNS queries, DHCP.
- **UDP with application-layer reliability**: QUIC (HTTP/3) uses UDP but implements its own packet-level reliability and congestion control, avoiding head-of-line blocking at the transport layer while still guaranteeing delivery at the stream level.
- **Multicast/broadcast**: Only possible with UDP — used for service discovery (mDNS, SSDP) and live video distribution to many receivers simultaneously.

## Trade-offs & Gotchas

- TCP head-of-line blocking: a single lost packet blocks all data behind it on the same connection. HTTP/2 multiplexes streams over one TCP connection, which worsens this problem under packet loss. HTTP/3 (QUIC) solves it by using UDP with per-stream reliability.
- TCP `TIME_WAIT` state (2*MSL, typically 60-120s) can exhaust ephemeral ports under high connection churn. Solutions: `SO_REUSEADDR`, `SO_REUSEPORT`, connection pooling, or `tcp_tw_reuse` sysctl.
- **Nagle's algorithm** batches small TCP writes to reduce packet count — can cause latency spikes for interactive protocols. Disable with `TCP_NODELAY` (used by Redis, game servers, SSH).
- UDP has no congestion control, so misbehaving UDP applications can saturate a network link and starve TCP flows. QUIC addresses this by implementing congestion control in user space.
- Firewalls and NAT devices handle TCP state machines natively; UDP flows must be tracked heuristically. Long-idle UDP connections through NAT may have their mappings silently dropped — applications send keepalive packets to avoid this.
- TCP buffer tuning: `SO_SNDBUF` and `SO_RCVBUF` — the OS auto-tunes these in Linux, but high-throughput systems (e.g., file storage, inter-DC replication) often benefit from explicit tuning.

## Key Points for Interviews

- TCP = reliable, ordered, connection-oriented. UDP = unreliable, unordered, connectionless.
- TCP 3-way handshake adds 1.5 round trips before data flows — matters for latency-sensitive short connections (reason HTTP/2 uses persistent connections, HTTP/3 uses 0-RTT).
- Head-of-line blocking is a TCP weakness exploited in system design discussions about HTTP/2 vs HTTP/3.
- QUIC = UDP + reliability + encryption + multiplexing — the modern answer to TCP's limitations.
- Use UDP when your application can tolerate loss better than it can tolerate delay (gaming, video, DNS).
- `TCP_NODELAY` disables Nagle's algorithm — mention this when designing latency-sensitive protocols.
- Connection pooling (databases, HTTP keep-alive) amortizes TCP handshake cost — always mention this when designing high-throughput services.
"##;
/// `websockets.md`.
pub const WEBSOCKETS: &'static str = r##"---
title: "WebSockets and Long Polling"
tags: [websockets, long-polling, sse, real-time, push-notifications, bidirectional]
difficulty: medium
estimated_time: 15min
---

## Overview

Standard HTTP is a request-response protocol — the client asks, the server answers, connection closes (or is kept alive for reuse). For **real-time bidirectional communication** (chat, collaborative editing, live dashboards, gaming), HTTP's pull model is inefficient. Three progressively better approaches exist: **short polling**, **long polling**, and **WebSockets**.

**Long polling** simulates push by having the client send a request that the server holds open until it has data (or a timeout). On data arrival or timeout, the server responds, the client immediately sends a new long-poll request. It works over plain HTTP and passes through any proxy, but is inefficient: each message requires a new HTTP request/response cycle with full headers, and the server must hold many open connections, each consuming a thread or file descriptor.

**WebSockets** (RFC 6455) upgrade an existing HTTP/1.1 connection via the `Upgrade: websocket` header, then switch to a persistent, full-duplex, framed binary/text protocol over the same TCP connection. Either side can send messages at any time with no per-message HTTP overhead. This makes WebSockets ideal for high-frequency, bidirectional communication. **Server-Sent Events (SSE)** occupy the middle ground: a persistent HTTP connection with one-way server-to-client push (text/event-stream), simpler than WebSockets but sufficient for read-only feeds (live scores, notifications).

```
Short Polling (inefficient, simple):
  Client --> GET /messages?since=t1 --> Server (returns immediately, empty if no data)
  Client --> GET /messages?since=t1 --> Server  (repeat every N seconds)
  Cost: wasted requests, high latency proportional to poll interval

Long Polling:
  Client --> GET /messages?since=t1 --> Server
                                    (server holds connection open...)
                                    (... new message arrives ...)
                          <-- 200 {message} ---
  Client --> GET /messages?since=t2 --> Server (immediately re-requests)
  Better: ~0 latency for delivery. Worse: HTTP overhead per message.

WebSocket Upgrade Handshake:
  Client --> HTTP GET /chat
             Upgrade: websocket
             Connection: Upgrade
             Sec-WebSocket-Key: dGhlIHNhbXBsZSBub25jZQ==
             Sec-WebSocket-Version: 13
  Server <-- HTTP 101 Switching Protocols
             Upgrade: websocket
             Sec-WebSocket-Accept: s3pPLMBiTxaQ9kYGzzhZRbK+xOo=

  After upgrade, TCP connection carries WebSocket frames:
  Client <--> Server  (full-duplex, any time, minimal overhead)

SSE (Server-Sent Events) - server push only:
  Client --> GET /live-feed
             Accept: text/event-stream
  Server --> HTTP 200
             Content-Type: text/event-stream
             (connection stays open)
             data: {"score": "3-2"}\n\n
             data: {"score": "4-2"}\n\n
```

## When to Use

- **WebSockets**: Bidirectional, high-frequency messaging — chat applications, collaborative document editing (Google Docs style), multiplayer games, live trading dashboards, real-time collaborative features.
- **SSE (Server-Sent Events)**: One-way server push, browser clients, where reconnection and event IDs are needed — live news feeds, notification streams, build/CI log tailing, live score updates. SSE reconnects automatically and has built-in event IDs for resumption.
- **Long Polling**: When WebSockets are unavailable (strict proxies, old infrastructure) or for infrequent events where the simplicity of HTTP is worth the overhead. Also used as a fallback in libraries like Socket.IO.
- **Short Polling**: Only for very infrequent updates (once per minute) where implementation simplicity matters more than efficiency. Avoid for anything approaching real-time.
- **When NOT to use WebSockets**: Simple request/response patterns, cacheable data, or communication through intermediaries that don't support WebSocket upgrades (some corporate proxies, old CDNs). Check that your CDN/load balancer supports `Upgrade` headers.

## Trade-offs & Gotchas

- WebSocket connections are **stateful and sticky** — they land on one backend server for their lifetime. Load balancers must support WebSocket forwarding. This complicates horizontal scaling: a server restart drops all connected clients. Mitigate with a **message broker** (Redis Pub/Sub, Kafka) so any backend can handle any client's messages.
- **Connection limits**: A server holding 100k WebSocket connections needs careful file descriptor tuning (`ulimit -n`, `fs.file-max`) and memory management. Each connection holds buffers. Nginx + Node.js can handle ~10k-50k concurrent WebSocket connections per process depending on message rate.
- **Heartbeats / ping-pong**: TCP keepalive is too slow (default 2 hours). WebSocket has a built-in ping/pong frame mechanism. Send application-level heartbeats every 30s to detect dead connections quickly and free resources.
- Proxies and firewalls that don't understand WebSockets will drop the `Upgrade` header or timeout idle connections. Always implement reconnection logic with exponential backoff in the client.
- **Backpressure**: Unlike HTTP/2 which has per-stream flow control, WebSocket has no built-in backpressure. A slow consumer can accumulate unbounded in-memory buffers. Implement application-level flow control if message rate can spike.
- SSE is HTTP — it works through HTTP/2 (multiplexed streams), while WebSocket requires special handling over HTTP/2. For browser clients, SSE + a separate REST endpoint for client-to-server messages can replace WebSockets cleanly.

## Key Points for Interviews

- WebSocket = full-duplex, persistent TCP connection with minimal framing overhead. Upgrade from HTTP via `101 Switching Protocols`.
- SSE = persistent HTTP, server-to-client only, auto-reconnect, text only. Simpler than WebSocket for read-only push.
- Long polling = HTTP held open until data is ready. Works everywhere, higher overhead than WebSocket.
- WebSockets are stateful — route with sticky load balancing or use a message broker (Redis Pub/Sub, Kafka) so any server can handle any client.
- Always implement client-side reconnection with exponential backoff. Connections drop.
- Heartbeats prevent ghost connections — send a ping every 30s, close on missed pong.
- For system design: separate the WebSocket connection layer (stateful) from the application logic layer (stateless), connected via a pub/sub bus.
"##;
/// The files of this module's content directory.
pub open spec fn files_spec() -> Seq<ContentFileView> {
    seq![
        ContentFileView { path: "networking/api-protocols.md"@, contents: API_PROTOCOLS@ },
        ContentFileView { path: "networking/cdn.md"@, contents: CDN@ },
        ContentFileView { path: "networking/dns.md"@, contents: DNS@ },
        ContentFileView { path: "networking/http-versions.md"@, contents: HTTP_VERSIONS@ },
        ContentFileView { path: "networking/https-tls.md"@, contents: HTTPS_TLS@ },
        ContentFileView { path: "networking/load-balancing-algorithms.md"@, contents: LOAD_BALANCING_ALGORITHMS@ },
        ContentFileView { path: "networking/osi-model.md"@, contents: OSI_MODEL@ },
        ContentFileView { path: "networking/proxies-gateways.md"@, contents: PROXIES_GATEWAYS@ },
        ContentFileView { path: "networking/tcp-vs-udp.md"@, contents: TCP_VS_UDP@ },
        ContentFileView { path: "networking/websockets.md"@, contents: WEBSOCKETS@ },
    ]
}

/// The files of this module's content directory.
pub fn files() -> (files: Vec<ContentFile>)
    ensures
        files@.map_values(|f: ContentFile| f@) == files_spec(),
{
    let mut files: Vec<ContentFile> = Vec::new();
    files.push(ContentFile { path: "networking/api-protocols.md", contents: API_PROTOCOLS });
    files.push(ContentFile { path: "networking/cdn.md", contents: CDN });
    files.push(ContentFile { path: "networking/dns.md", contents: DNS });
    files.push(ContentFile { path: "networking/http-versions.md", contents: HTTP_VERSIONS });
    files.push(ContentFile { path: "networking/https-tls.md", contents: HTTPS_TLS });
    files.push(ContentFile { path: "networking/load-balancing-algorithms.md", contents: LOAD_BALANCING_ALGORITHMS });
    files.push(ContentFile { path: "networking/osi-model.md", contents: OSI_MODEL });
    files.push(ContentFile { path: "networking/proxies-gateways.md", contents: PROXIES_GATEWAYS });
    files.push(ContentFile { path: "networking/tcp-vs-udp.md", contents: TCP_VS_UDP });
    files.push(ContentFile { path: "networking/websockets.md", contents: WEBSOCKETS });
    assert(files@.map_values(|f: ContentFile| f@) =~= files_spec());
    files
}

/// Every file of this module's content directory lies under `networking/`.
pub proof fn lemma_files_under_directory()
    ensures
        files_spec().len() == 10,
        forall|k: int|
            0 <= k < files_spec().len() ==> "networking/"@.is_prefix_of(#[trigger] files_spec()[k].path),
{
    reveal_strlit("networking/");
    reveal_strlit("networking/api-protocols.md");
    reveal_strlit("networking/cdn.md");
    reveal_strlit("networking/dns.md");
    reveal_strlit("networking/http-versions.md");
    reveal_strlit("networking/https-tls.md");
    reveal_strlit("networking/load-balancing-algorithms.md");
    reveal_strlit("networking/osi-model.md");
    reveal_strlit("networking/proxies-gateways.md");
    reveal_strlit("networking/tcp-vs-udp.md");
    reveal_strlit("networking/websockets.md");
    assert("networking/api-protocols.md"@.subrange(0, 11) =~= "networking/"@);
    assert("networking/cdn.md"@.subrange(0, 11) =~= "networking/"@);
    assert("networking/dns.md"@.subrange(0, 11) =~= "networking/"@);
    assert("networking/http-versions.md"@.subrange(0, 11) =~= "networking/"@);
    assert("networking/https-tls.md"@.subrange(0, 11) =~= "networking/"@);
    assert("networking/load-balancing-algorithms.md"@.subrange(0, 11) =~= "networking/"@);
    assert("networking/osi-model.md"@.subrange(0, 11) =~= "networking/"@);
    assert("networking/proxies-gateways.md"@.subrange(0, 11) =~= "networking/"@);
    assert("networking/tcp-vs-udp.md"@.subrange(0, 11) =~= "networking/"@);
    assert("networking/websockets.md"@.subrange(0, 11) =~= "networking/"@);
}

} // verus!
