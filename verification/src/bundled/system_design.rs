//! The study notes of the System Design Questions module.
use vstd::prelude::*;
use crate::content::{ContentFile, ContentFileView};

verus! {
/// `distributed-cache.md`.
pub const DISTRIBUTED_CACHE: &'static str = r##"---
title: "Design a Distributed Cache (e.g., Redis)"
tags: [caching, consistent-hashing, eviction, replication, ttl, cluster]
difficulty: medium
estimated_time: 45min
companies: [Google, Amazon, Meta, Microsoft, Stripe]
---

## Problem Statement

Design a distributed in-memory cache that can store key-value data at high
throughput and low latency, supporting horizontal scaling across many nodes.

## Clarifying Questions

Ask these before designing:

- Scale? (Assume 1M reads/sec, 100K writes/sec across the cluster)
- Data model? (Key-value; values up to 1 MB)
- Consistency requirement? (Eventual consistency acceptable; strong preferred for writes)
- Persistence needed? (Optional — cache should survive brief node restarts)
- Eviction policy? (LRU by default, configurable)
- Read/write latency target? (< 1ms p99 for reads)

## Capacity Estimates

  Memory per node: 64 GB (reasonable server)
  Total data:      1 TB → ~16 nodes at 64 GB each (with replication, ~32 nodes)
  Throughput:      1M reads/sec across 16 nodes = ~62K reads/sec per node (easy)
  Network:         1M reads * 1 KB avg = 1 GB/s total — need 10 GbE NICs

## High-Level Design

```
[Client]
   |
   v
[Cache Client Library]
(consistent hash → node selection)
   |
   ├──> [Cache Node 1]  (primary shard A, B, C)
   ├──> [Cache Node 2]  (primary shard D, E, F)
   ├──> [Cache Node 3]  (primary shard G, H, I)
   └──> [Cache Node N]  ...

Each primary node:
   |
   v
[Replica Node] (standby, handles reads in read-scale mode)

[Cluster Manager / Config Service]
(tracks node membership, handles failover)
```

## Consistent Hashing

Distributing keys across nodes: consistent hashing minimizes key remapping
when nodes are added or removed.

**How it works:**
  - Map both nodes and keys to positions on a virtual ring (hash ring)
  - A key is owned by the first node clockwise from its hash position
  - Node added: only the keys between the new node and its predecessor move
  - Node removed: only that node's keys must be redistributed

**Virtual nodes (vnodes):**
  - Each physical node maps to K virtual positions on the ring (e.g., 150 vnodes)
  - Evens out load distribution; avoids "hot zone" when nodes have different capacities
  - Prevents single-node overload when a neighbor fails

**Without consistent hashing (modulo hashing):**
  - key → node = hash(key) % num_nodes
  - Adding one node remaps nearly ALL keys → thundering herd on the DB

## Data Partitioning

With N nodes, each node owns ~1/N of the keyspace:

  Node 1: keys in ring position [0, 1/N)
  Node 2: keys in ring position [1/N, 2/N)
  ...

The client library (not the server) performs routing:
  1. Hash the key → position on ring
  2. Find the responsible node
  3. Send request directly to that node

This is the "smart client" pattern — no coordinator hop needed.

## Replication

Each shard is replicated to R replica nodes (R = 2 is common):

**Leader-follower (primary-replica):**
  - All writes go to the leader
  - Reads can go to leader (strong consistency) or replicas (eventual consistency)
  - Replica lag is typically < 10ms on same LAN

**Replication factor trade-offs:**
  - R=1: no redundancy; node failure loses all data in that shard
  - R=2: tolerate 1 failure; common for caches (data loss tolerable, fast rebuild)
  - R=3: tolerate 2 failures; used when cache is the system of record

On leader failure: cluster manager promotes a replica to leader within seconds.

## Eviction Policies

Cache must evict keys when memory is full. Common policies:

  LRU (Least Recently Used):
    - Evict the key not accessed for the longest time
    - Good general default; works well for temporal locality
    - Implementation: doubly-linked list + hash map (O(1) access and eviction)

  LFU (Least Frequently Used):
    - Evict the key accessed the fewest times
    - Better for stable "hot" data; resistant to one-off large scans
    - More complex to implement accurately

  TTL-based expiry:
    - Keys expire at a wall-clock time (set per-key at write time)
    - Lazy expiry: check TTL on read, delete if expired
    - Active expiry: background sweep samples random keys and deletes expired ones
    - Redis does both: lazy + active expiry with a configurable sampling rate

  FIFO / Random:
    - Simple but rarely optimal; rarely used in production

## Write Strategies

Three patterns for keeping the cache consistent with the DB:

  Cache-aside (lazy loading):
    - App checks cache first; on miss, loads from DB and populates cache
    - Pros: only cache what's needed; DB is always authoritative
    - Cons: cold start (empty cache after restart); thundering herd on cold miss

  Write-through:
    - App writes to cache AND DB synchronously on every write
    - Pros: cache always up to date
    - Cons: write latency doubles; cache filled with data that may not be read

  Write-behind (write-back):
    - App writes to cache only; cache asynchronously flushes to DB
    - Pros: very fast writes
    - Cons: risk of data loss if cache node crashes before flush

## Deep Dives

### Thundering Herd / Cache Stampede
  - Popular key expires → many concurrent requests all go to DB simultaneously
  - Mitigation 1: add random jitter to TTL (not all keys expire at the same second)
  - Mitigation 2: probabilistic early recomputation (refresh before expiry based on
    remaining TTL and compute time)
  - Mitigation 3: lock with a single request computing the value; others wait

### Hot Key Problem
  - A single key receives millions of reads/sec → overwhelms one node
  - Solution: replicate hot keys to multiple nodes; client randomly selects replica
  - Or: local in-process cache (L1) in the client for the top-N hottest keys

### Persistence (Optional)
  - RDB snapshots: periodic full dump to disk (used by Redis)
  - AOF (append-only file): log every write command for durability
  - For a pure cache: no persistence needed; DB is the source of truth
  - For a cache-as-database use case: AOF + RDB hybrid recommended

### Cluster Membership (Gossip Protocol)
  - Nodes exchange membership state with random peers periodically
  - Convergent: eventually all nodes agree on the cluster topology
  - Failure detection: if node X doesn't respond to N gossip rounds → suspected down
  - Used by Redis Cluster, Cassandra, Consul

## Key Decisions to Highlight

1. Consistent hashing with vnodes — minimal key remapping on topology changes
2. Smart client routing — avoids coordinator hop, reduces latency
3. LRU + TTL eviction — handles both temporal and explicit expiry
4. Leader-follower replication (R=2) — tolerate one failure without sacrificing write speed
"##;
/// `dropbox.md`.
pub const DROPBOX: &'static str = r##"---
title: "Design a File Storage Service (e.g., Dropbox)"
tags: [file-sync, versioning, conflict-resolution, deduplication, object-storage, delta-sync]
difficulty: hard
estimated_time: 60min
companies: [Google, Microsoft, Dropbox, Box, Amazon]
---

## Problem Statement

Design a cloud file storage and sync service where users can store files, access
them from multiple devices, and sync changes automatically across all devices.

## Clarifying Questions

Ask these before designing:

- Scale? (Assume 500M users, 1B files stored)
- File size limits? (Assume up to 5 GB per file)
- How many devices per user? (Assume ~3 devices average)
- Collaboration / shared folders? (Yes — mention, don't fully design)
- Offline editing and conflict resolution? (Yes — important design constraint)
- Versioning? (Yes — last 30 versions retained)

## Capacity Estimates

  Storage:  500M users * 10 GB avg = 5 EB total
  Upload:   50M daily active users * 1 upload/day * 1 MB avg = 50 TB/day
  Metadata: 1B files * 500 bytes = 500 GB metadata DB
  Sync:     Each upload may need to notify ~3 other devices = 150M sync events/day

## High-Level Design

```
[Client App (Device A)]
    |
    | 1. Detect file change (file watcher)
    | 2. Split into chunks
    | 3. Upload changed chunks only
    v
[Upload Service] ──> [Object Storage (S3)]
    |
    v
[Metadata Service] ──> [Metadata DB (SQL)]
    |
    v
[Notification Service] ──> [Client App (Device B, C)]
                                |
                                v
                        [Download changed chunks]
                        [Reassemble file locally]
```

## Chunking Strategy

Files are split into fixed-size or content-defined chunks (~4–8 MB):

**Why chunking?**
  - Resume interrupted uploads (only re-upload failed chunks)
  - Delta sync: only changed chunks need to be re-uploaded (critical for large files)
  - Deduplication: identical chunks shared across users/files

**Content-Defined Chunking (Rabin fingerprinting):**
  - Chunk boundaries determined by content, not fixed offsets
  - Inserting 1 byte near the start doesn't invalidate all chunks downstream
  - Better dedup ratio than fixed-size chunking

Each chunk is identified by its SHA-256 hash:
  chunk_id = SHA256(chunk_bytes)

## Deduplication

Before uploading a chunk, the client asks: "does this chunk already exist?"

  Client → Metadata Service: "Does chunk {sha256} exist?"
  Server: yes → skip upload (reference existing chunk)
          no  → proceed with upload

**Cross-user dedup:** two users storing identical files → one copy on disk.
  This can raise privacy concerns; some services only dedup within a single user.

**Delta encoding for large files:**
  - Track which chunks changed since last sync
  - Upload only the diff: a 1 GB video file with a 1 MB edit → upload 1 MB, not 1 GB

## Metadata Service

Stores file tree, versions, chunk manifests:

  files
  ┌──────────────────┬───────────────────────────────┐
  │ file_id          │ UUID        PRIMARY KEY        │
  │ user_id          │ UUID                           │
  │ path             │ TEXT        (virtual path)     │
  │ name             │ VARCHAR                        │
  │ size_bytes       │ BIGINT                         │
  │ checksum         │ VARCHAR     (whole-file hash)  │
  │ current_version  │ INT                            │
  │ created_at       │ TIMESTAMP                      │
  │ updated_at       │ TIMESTAMP                      │
  └──────────────────┴───────────────────────────────┘

  file_versions
  ┌──────────────────┬───────────────────────────────┐
  │ file_id          │ UUID                           │
  │ version          │ INT                            │
  │ chunk_ids        │ TEXT[]      (ordered list)     │
  │ created_at       │ TIMESTAMP                      │
  └──────────────────┴───────────────────────────────┘

  chunks
  ┌──────────────────┬───────────────────────────────┐
  │ chunk_id         │ VARCHAR     (SHA256 hash)      │
  │ storage_url      │ TEXT        (S3 key)           │
  │ size_bytes       │ INT                            │
  └──────────────────┴───────────────────────────────┘

## Sync Notifications

When a file changes on Device A, Devices B and C must sync:

1. Metadata Service publishes a file change event (user_id, file_id, new_version)
2. Notification Service fans out to all devices registered for that user
3. Each device receives the event via WebSocket or long-polling connection
4. Device fetches the new version's chunk list from Metadata Service
5. Device downloads only chunks it doesn't already have locally

Use a message broker (Kafka) between Metadata and Notification services for
reliability and decoupling.

## Deep Dives

### Conflict Resolution
Two devices edit the same file while offline:
  - Server detects conflict when Device B uploads v2 based on v1, but v2 already exists
  - Strategy: create a conflict copy (e.g., "report (Nick's conflicted copy 2026-03-21).docx")
  - Both versions preserved; user resolves manually
  - Operational transform (OT) or CRDTs for real-time collaborative editing
    (Google Docs approach — much more complex)

### Client File Watcher
  - OS-level file system events (inotify on Linux, FSEvents on macOS, ReadDirectoryChanges on Windows)
  - Debounce rapid changes (wait 500ms after last event before syncing)
  - Maintain local manifest: file_path → {checksum, last_synced_at}
  - On startup: compare local manifest against server state to catch offline changes

### Large File Upload
  - Multipart upload: upload chunks in parallel to maximize throughput
  - Each chunk uploaded independently; server reassembles the manifest
  - Chunked upload is resumable: restart at last failed chunk

### Bandwidth Optimization
  - Compress chunks before upload (gzip/zstd for text files)
  - Throttle uploads to avoid saturating user's connection (configurable limit)
  - Sync lower-priority files in background; user-accessed files get priority

### Versioning & Deletion
  - Soft delete: move to trash with 30-day retention before permanent removal
  - Versions: keep last 30 versions; background job prunes older versions
  - Chunks from deleted versions are reference-counted; GC when count drops to 0

## Key Decisions to Highlight

1. Chunking with SHA-256 IDs — enables deduplication and delta sync in one mechanism
2. Upload-before-metadata: store chunks first, then commit metadata — crash-safe
3. Conflict copy strategy — simple, user-understandable, preserves no data loss
4. Long-poll/WebSocket sync notifications — near-real-time sync without polling every N seconds
"##;
/// `notification-system.md`.
pub const NOTIFICATION_SYSTEM: &'static str = r##"---
title: "Design a Notification System"
tags: [push-notifications, message-queues, fan-out, user-preferences, apns, fcm]
difficulty: medium
estimated_time: 45min
companies: [Google, Meta, Amazon, Uber, LinkedIn]
---

## Problem Statement

Design a notification system that sends notifications to users across multiple
channels (push, email, SMS) triggered by various application events.

## Clarifying Questions

Ask these before designing:

- Channels supported? (Push notifications, email, SMS — all three)
- Scale? (Assume 10M notifications/day, spikes up to 1M/hr during events)
- Latency requirement? (Push: < 5s; email: best-effort; SMS: < 30s)
- User preferences respected? (Yes — users can opt out per channel/type)
- Templating and personalization? (Yes — variable substitution in templates)
- Analytics / delivery tracking? (Yes — delivered, opened, clicked)

## Capacity Estimates

  10M notifications/day = ~115/sec average
  Peak: 1M/hr = ~277/sec during marketing campaigns
  Fanout: a single event (e.g., new follower) → 1 notification
          a broadcast (e.g., marketing blast) → 100M notifications

## High-Level Design

```
[Event Sources]
(App Services, Scheduled Jobs, Admin Campaigns)
     |
     v
[Notification Service / API]
     |
     v
[Validation + User Preference Check]
     |
     v
[Message Queue (Kafka)]
     |
  ┌──┴──────────────┬───────────────┐
  v                 v               v
[Push Worker]   [Email Worker]  [SMS Worker]
  |                 |               |
  v                 v               v
[APNs / FCM]   [SendGrid/SES]   [Twilio]
  |                 |               |
  v                 v               v
         [Delivery Tracker DB]
```

## Event Ingestion

Notification triggers arrive from many sources:
- Application services (user liked your post, your order shipped)
- Scheduled jobs (weekly digest emails, daily reminders)
- Admin campaigns (marketing blasts, product announcements)

The Notification Service exposes an internal API:

  POST /notifications
  {
    "user_id": "uuid",
    "type": "ORDER_SHIPPED",
    "template_id": "order-shipped-v2",
    "data": { "order_id": "123", "carrier": "UPS" },
    "channels": ["push", "email"]
  }

## User Preferences

Before enqueuing, check if the user wants this notification:
- User opted out of this notification type?
- User opted out of this channel?
- User in do-not-disturb hours?
- User's device token still valid?

Store preferences in a fast read store (Redis or a SQL table with read replicas).
Invalid/expired tokens should be cleaned up proactively (APNs/FCM return errors
for invalid tokens — act on these responses).

## Message Queue: Kafka

Use separate Kafka topics per channel:
  notifications.push   → consumed by Push Workers
  notifications.email  → consumed by Email Workers
  notifications.sms    → consumed by SMS Workers

Benefits:
  - Channel workers scale independently (push volume >> SMS volume)
  - Backpressure: if email provider is slow, email queue absorbs the spike
  - Retry: failed deliveries requeued with exponential backoff
  - Replay: re-send a batch if a provider had an outage

## Push Notification Workers

**iOS (APNs):**
  - HTTP/2 connection to APNs; send device token + payload
  - Max payload: 4 KB; keep notifications small
  - Handle 400/410 responses → remove invalid device tokens

**Android (FCM):**
  - HTTP v1 API; send registration token + message
  - Similar token lifecycle management as APNs
  - Supports data messages (silent wake) and notification messages

**Token management:**
  - Device registers token on app install/update → stored in DB
  - Tokens expire or are invalidated on reinstall — APNs/FCM tell you
  - Cron job: prune tokens that haven't been refreshed in 90+ days

## Fan-out for Broadcast Campaigns

Sending to 100M users at once:
1. Admin creates campaign: template + target segment + schedule
2. Campaign Service queries user segment (e.g., "all US users")
3. Produces user_ids in batches to a campaign Kafka topic
4. Fan-out Workers read batches, apply preference checks, write to channel queues
5. Channel workers deliver as normal

Rate limiting on the way out:
  - APNs: no strict rate limit, but respect their throughput
  - Email: SendGrid/SES have per-second send limits — use their batch APIs
  - SMS: most expensive channel — additional confirmation step for bulk

## Delivery Tracking

Track each notification through its lifecycle:

  notification_log
  ┌──────────────────┬──────────────────────────────────┐
  │ notification_id  │ UUID        PRIMARY KEY           │
  │ user_id          │ UUID                              │
  │ type             │ VARCHAR                           │
  │ channel          │ ENUM(push, email, sms)            │
  │ status           │ ENUM(queued, sent, delivered,     │
  │                  │      failed, opened, clicked)     │
  │ provider_id      │ VARCHAR     (provider's message ID│
  │ created_at       │ TIMESTAMP                         │
  │ updated_at       │ TIMESTAMP                         │
  └──────────────────┴──────────────────────────────────┘

Delivery confirmations:
  - APNs/FCM: callback or polling for delivery receipts
  - Email: webhook from SendGrid for opens/clicks (requires tracking pixel/links)
  - SMS: Twilio webhooks for delivery status

## Deep Dives

### Deduplication
  - Events can arrive more than once (at-least-once delivery from upstream services)
  - Generate a deterministic notification_id from (user_id + event_type + event_id)
  - Check dedup cache (Redis) before enqueuing — skip if already processed
  - Window: 24h dedup to prevent double-notifications from retried events

### Priority Queues
  - Transactional notifications (order shipped, password reset): high priority, low latency
  - Marketing notifications: low priority, bulk delivery acceptable
  - Separate Kafka topics or priority levels per channel

### Template Engine
  - Templates stored in DB with variable placeholders: "Hi {{first_name}}, your order..."
  - Render at worker time (not enqueue time) — most up-to-date user data
  - Localization: store template per locale; select based on user.locale

### Rate Limiting per User
  - Protect users from notification spam during system incidents
  - Max N notifications per user per hour (configurable per type)
  - Use Redis token bucket per user_id

## Key Decisions to Highlight

1. Separate Kafka topics per channel — independent scaling and failure isolation
2. Preference check before queuing — don't enqueue what won't be delivered
3. Idempotent notification IDs — prevent duplicate delivery from upstream retries
4. Delivery status tracking — enables analytics and debugging failed deliveries
"##;
/// `rate-limiter.md`.
pub const RATE_LIMITER: &'static str = r##"---
title: "Design a Rate Limiter"
tags: [rate-limiting, redis, distributed-systems, api-design, middleware]
difficulty: medium
estimated_time: 40min
companies: [Google, Amazon, Stripe, Cloudflare, Microsoft]
---

## Problem Statement

Design a rate limiter that restricts how many requests a client can make to an
API within a time window. For example: max 1,000 requests per user per hour.
Throttled requests receive a 429 Too Many Requests response.

## Clarifying Questions

- Per-user, per-IP, or per-API-key limiting? (Assume per user/API key)
- Global limiter or per-service? (Start global, discuss per-service)
- Hard limit (reject) or soft limit (queue/delay)? (Hard reject)
- What consistency is needed? Exact counts or approximate OK? (Approximate OK)
- Distributed — multiple app servers? (Yes)

## High-Level Design

```
[Client]
   |
   v
[Load Balancer]
   |
   v
[Rate Limiter Middleware]  ←→  [Redis Cluster]
   |                |
   v                v
[Allow → API]   [Reject → 429]
```

The rate limiter sits as middleware in the request path, consulting Redis for
the current count before forwarding or rejecting the request.

## Algorithms

### Token Bucket (recommended for most cases)
  - Each user has a bucket with capacity N tokens
  - Tokens refill at a fixed rate (e.g., 10/sec)
  - Each request consumes 1 token; reject if bucket empty
  + Allows bursting up to bucket capacity
  + Smooth, intuitive behavior
  - State per user: {tokens, last_refill_time}

### Sliding Window Counter
  - Divide time into small buckets (e.g., 1-min buckets for a 1-hour window)
  - Sum counts across all buckets in the window
  + More accurate than fixed window
  + Memory efficient with bucketing
  - Slightly complex to implement

### Fixed Window Counter (simplest)
  - Count requests in the current time window (e.g., current minute)
  - Reset counter at window boundary
  + Simple: just increment a key with TTL
  - Allows 2x the limit at window boundaries (thundering herd)

### Leaky Bucket
  - Requests enter a queue; processed at fixed rate
  + Smooths out bursty traffic
  - Adds latency; poor fit for interactive APIs

## Implementation with Redis

Token bucket using Redis + Lua (atomic):

```
-- Lua script executed atomically on Redis
local tokens = tonumber(redis.call("GET", key) or capacity)
local now = tonumber(ARGV[1])  -- current timestamp (ms)
local last = tonumber(redis.call("GET", key..":ts") or now)
local elapsed = (now - last) / 1000
tokens = math.min(capacity, tokens + elapsed * refill_rate)
if tokens >= 1 then
  tokens = tokens - 1
  redis.call("SET", key, tokens)
  redis.call("SET", key..":ts", now)
  return 1  -- allowed
else
  return 0  -- rejected
end
```

Why Lua? Redis executes Lua scripts atomically — no race conditions between
the read-check-write steps without needing distributed locks.

## Sliding Window with Redis (alternative)

  ZADD user:{id}:requests <timestamp> <request_id>
  ZREMRANGEBYSCORE user:{id}:requests 0 <window_start>
  count = ZCARD user:{id}:requests
  if count < limit: allow; else: reject

Each request is a sorted set entry. TTL the key at window_size to auto-clean.
Accurate but higher memory per user (~O(requests_in_window)).

## Response Headers

Always return rate limit info to clients:

  X-RateLimit-Limit: 1000
  X-RateLimit-Remaining: 743
  X-RateLimit-Reset: 1711930800   (Unix timestamp when window resets)
  Retry-After: 3600               (seconds, only on 429)

## Deep Dives

### Distributed Consistency
  - Each app server checks Redis independently — eventual consistency is fine
    for most rate limiting use cases (a few extra requests through is OK)
  - For strict limits (billing, security): use Redis cluster with WAIT for
    replication, or use a single Redis primary for the limiter

### Multiple Limits (burst + sustained)
  - Apply two limiters in series: e.g., max 100 req/min AND max 1000 req/hour
  - Use separate Redis keys per window size: user:123:min, user:123:hour

### Where to Place the Limiter
  Option A — API Gateway: single enforcement point, easy to manage
  Option B — Middleware in each service: more granular, per-service limits
  Option C — Client SDK: soft limits, not enforceable

### Handling Redis Failure
  - If Redis is unavailable: fail open (allow requests) to avoid outage
  - Log the failure and alert — do not silently degrade
  - Use Redis Sentinel or Cluster for HA

### Rate Limiting by IP vs User
  - IP limiting: cheap but easy to bypass with proxies
  - User/API key limiting: more accurate, requires auth at the limiter layer
  - Layer both: IP limit unauthenticated, user limit authenticated

## Key Decisions to Highlight

1. Token bucket for its burst tolerance and natural feel
2. Redis + Lua for atomic check-and-decrement without distributed locks
3. Fail open on Redis failure — availability over strict enforcement
4. Return X-RateLimit-* headers so clients can self-throttle
"##;
/// `twitter-feed.md`.
pub const TWITTER_FEED: &'static str = r##"---
title: "Design a Social Media Feed (Twitter/X)"
tags: [feed, fanout, caching, pub-sub, eventual-consistency, social-graph]
difficulty: hard
estimated_time: 60min
companies: [Meta, Twitter/X, Amazon, Google, LinkedIn]
---

## Problem Statement

Design a social media feed where users follow other users and see a reverse-
chronological (or ranked) feed of posts from people they follow. Think Twitter,
Instagram feed, or LinkedIn home feed.

## Clarifying Questions

- How many users? (500M total, 50M DAU)
- Average follows per user? (~200)
- Read/write ratio? (Reads dominate: ~1000:1)
- Reverse-chronological or ranked feed? (Start with chrono; ranking is additive)
- Media support (images/video)? (Text only for design; mention media as extension)
- Maximum followers per user? (Handle celebrities with 10M+ followers — this
  is the core scaling challenge)

## Capacity Estimates

  Posts:  50M DAU * 1 post/day = ~600 writes/sec (peaks 5x)
  Reads:  50M DAU * 10 feed loads/day = ~6,000 reads/sec
  Storage: 600 posts/sec * 140 bytes * 86,400 sec = ~7 GB/day

## High-Level Design

```
[Client]
   |
   v
[API Gateway]
   |           |
   v           v
[Post       [Feed
 Service]    Service]
   |              |
   v              v
[Post DB]    [Feed Cache]    [Feed DB]
   |         (Redis)         (fallback)
   |
   v
[Fanout Service]
(async, via message queue)
```

Core flow:
  Write path: Post → Post DB → enqueue fanout job
  Fanout: push post ID to each follower's feed cache
  Read path: Feed Service reads pre-built feed from cache

## The Core Problem: Fanout

When a user posts, who sees it and how?

### Fanout-on-Write (Push Model)
  - On post creation: write the post ID to every follower's feed cache
  - Read is instant: just fetch the pre-built list from cache
  + Ultra-fast reads
  - Slow/expensive writes for high-follower accounts (celebrity problem)
  - Wasted work if followers are inactive

### Fanout-on-Read (Pull Model)
  - On feed request: fetch posts from everyone the user follows, merge, sort
  + Write is simple and fast
  - Read is slow and expensive at scale (merge N users' timelines)
  - Not viable for users following 1000+ accounts

### Hybrid (recommended at scale)
  - Regular users (<10K followers): fanout-on-write into followers' caches
  - Celebrities (>10K followers): skip write fanout; pull their posts at
    read time and merge with the pre-built feed
  - A "celebrity" flag on the account, checked at post time

```
Post created
     |
     v
Is author a celebrity?
  No  → Fanout Service pushes to all followers' feed caches (async)
  Yes → Skip; feed service pulls celebrity posts at read time
```

## Feed Cache Design

Each user has a Redis list: feed:{user_id} = [post_id_1, post_id_2, ...]

  - Sorted by timestamp descending (newest first)
  - Cap at last 1,000 posts — older posts fetched from Feed DB
  - TTL: evict inactive users' caches after 7 days
  - Fanout writes: LPUSH + LTRIM to maintain cap atomically

Feed read: LRANGE feed:{user_id} 0 49  → 50 post IDs
Then: batch-fetch post content from Post Cache/DB (multi-get).

## Data Model

  posts
  ┌─────────────┬───────────────────────────────────────────┐
  │ post_id     │ BIGINT  PRIMARY KEY (Snowflake ID)        │
  │ author_id   │ BIGINT  NOT NULL                          │
  │ content     │ TEXT    NOT NULL                          │
  │ created_at  │ TIMESTAMP NOT NULL                        │
  └─────────────┴───────────────────────────────────────────┘

  follows
  ┌─────────────┬───────────────────────────────────────────┐
  │ follower_id │ BIGINT  NOT NULL                          │
  │ followee_id │ BIGINT  NOT NULL                          │
  │ PRIMARY KEY (follower_id, followee_id)                  │
  └─────────────┴───────────────────────────────────────────┘

Snowflake IDs encode timestamp — sortable by ID = sortable by time.
No ORDER BY created_at needed; just ORDER BY post_id DESC.

## Deep Dives

### Fanout Queue
  - Post Service publishes to a message queue (Kafka topic: new-posts)
  - Fanout Service consumes, looks up follower list, writes to feed caches
  - Partitioned by author_id for ordering guarantees
  - Lag monitoring: alert if fanout falls >30s behind

### Social Graph Storage
  - follows table sharded by follower_id for efficient "who do I follow?" queries
  - Replicated shard by followee_id for "who follows me?" (fanout lookups)
  - At scale: dedicated graph DB (TAO at Meta) or adjacency list in a KV store

### Feed Ranking (beyond MVP)
  - Instead of pure chronological, score posts by: recency + engagement + affinity
  - Pre-compute scores in the fanout step; store as sorted set (ZADD)
  - Separate ML ranking service consumes feed candidates and re-ranks

### New User / Empty Cache (cold start)
  - No pre-built feed: pull-on-read for first request, then warm the cache
  - Or: background job pre-builds cache when a follow relationship is created

### Read-Your-Own-Write Consistency
  - After posting, user expects to see their post immediately
  - Solution: for the post author, read from Post DB directly for 30 seconds
  - Or: write to their own feed cache synchronously (not async)

## Key Decisions to Highlight

1. Hybrid fanout — write for normal users, pull for celebrities
2. Pre-built feed in Redis for O(1) reads
3. Snowflake IDs — time-sortable, globally unique, no ORDER BY needed
4. Async fanout via Kafka — decouples write path from fan-out latency
5. Feed capped at 1K entries — tail loaded from DB (rarely needed)
"##;
/// `uber.md`.
pub const UBER: &'static str = r##"---
title: "Design a Ride-Sharing Service (e.g., Uber)"
tags: [geospatial, real-time, matching, websockets, payments, location-tracking]
difficulty: hard
estimated_time: 60min
companies: [Uber, Lyft, Amazon, Apple, DoorDash]
---

## Problem Statement

Design a ride-sharing platform where riders can request rides and nearby drivers
are matched, with real-time location tracking throughout the trip.

## Clarifying Questions

Ask these before designing:

- Scale? (Assume 10M rides/day, 1M concurrent drivers broadcasting location)
- Matching radius? (Assume ~5 km, configurable)
- ETA accuracy required? (Best-effort; within ±1 min acceptable for MVP)
- Payments in scope? (High-level only — not full payment system design)
- Surge pricing? (Mention as a concept, don't fully design)

## Capacity Estimates

  Location updates: 1M active drivers * 1 update/4sec = 250,000 writes/sec
  Ride requests:    10M/day = ~115 req/sec (bursty at commute hours)
  Matching latency: must complete in < 5 seconds end-to-end

## High-Level Design

```
[Rider App]                  [Driver App]
     |                            |
     | Request ride               | Location update (every 4s)
     v                            v
[API Gateway / Load Balancer]
     |           |
     v           v
[Ride Service] [Location Service]
     |               |
     v               v
[Matching Engine] [Location DB (geospatial)]
     |               (Redis GEO / PostGIS)
     v
[Trip Service] ──> [Notification Service]
     |
     v
[Payments Service]
```

## Location Service

The highest-write component. Handles 250K updates/sec.

**Storage: Redis GEO commands**
  - `GEOADD drivers_online <lng> <lat> <driver_id>` on each update
  - `GEORADIUS drivers_online <lng> <lat> 5 km` for nearby driver lookup
  - Redis GEO uses a geohash under the hood (sorted set with score = geohash)
  - In-memory → sub-millisecond reads; perfect for real-time queries

**Geohash alternative for interviews:**
  - Divide world into a grid of cells at fixed precision (e.g., 6 chars ≈ 1.2km²)
  - Driver's location encoded to geohash cell; store set of drivers per cell
  - Query = check current cell + 8 neighboring cells for nearby drivers

Driver location updates are writes to Redis — durability is not critical (stale
location is replaced in 4 seconds). Append to a time-series DB (InfluxDB) only
if historical tracking is needed.

## Matching Engine

When a rider requests a ride:
1. Look up rider location → compute geohash or GEORADIUS
2. Find available drivers within radius, sorted by distance
3. Send push offer to top N candidates simultaneously (not sequentially)
4. First driver to accept → matched; others receive cancellation
5. If no acceptance within timeout → expand radius and retry

**State machine for a ride:**
  REQUESTED → MATCHING → ACCEPTED → DRIVER_EN_ROUTE → ARRIVED
  → IN_TRIP → COMPLETED → (RATED)

State stored in a relational DB (Postgres) for durability. Transitions trigger
events to Notification Service and Payments Service.

## Real-Time Communication

Both rider and driver need live updates:

- **Driver → Server:** HTTP polling every 4s is simple but wasteful
  Better: persistent WebSocket or long-polling for driver location streaming
- **Server → Rider/Driver:** push updates (match found, driver location, ETA)
  Use WebSocket connections managed by a dedicated Presence Service
  Or: server-sent events (SSE) for simpler one-way push

At scale, WebSocket connections are stateful — use a connection registry
(Redis key: user_id → server_node) to route server-originated pushes to the
correct node holding the open connection.

## Trip Service & Database

  trips
  ┌─────────────────┬────────────────────────────────┐
  │ trip_id         │ UUID        PRIMARY KEY         │
  │ rider_id        │ UUID                            │
  │ driver_id       │ UUID        NULLABLE            │
  │ status          │ ENUM(requested, ..., completed) │
  │ pickup_lat/lng  │ FLOAT                           │
  │ dropoff_lat/lng │ FLOAT       NULLABLE            │
  │ requested_at    │ TIMESTAMP                       │
  │ fare_cents      │ INT         NULLABLE            │
  └─────────────────┴────────────────────────────────┘

Write to Postgres with read replicas for trip history queries.

## Deep Dives

### ETA Calculation
  - Use a road graph (OpenStreetMap data + Dijkstra/A*) for routing
  - In practice, use a maps API or proprietary routing engine
  - Factor in real-time traffic (ingest traffic events, adjust edge weights)
  - Update ETA every ~30s during the trip

### Surge Pricing
  - Monitor supply (available drivers) vs demand (open requests) per geohash zone
  - When demand/supply ratio exceeds threshold → apply multiplier
  - Simple rule: if queue_length > available_drivers * 2 → surge = 1.5×
  - Communicate surge to riders before confirmation

### Driver Dispatch at Scale
  - Single region: Redis GEO handles millions of drivers
  - Multi-region: shard by geographic region (US East, US West, EU, etc.)
  - Each region is an independent cluster; cross-region trips are rare

### Payments
  - Fare calculated server-side (distance × rate + base fare)
  - Charge rider after trip completion via payment provider
  - Idempotency keys prevent double-charges on retry
  - Driver payout batched daily via bank transfer

## Key Decisions to Highlight

1. Redis GEO for driver location — sub-ms geospatial queries at high write throughput
2. Fan-out to N drivers simultaneously — faster match than sequential offers
3. WebSocket presence service — real-time bidirectional push without polling
4. Geohash grid for spatial queries — O(1) lookup by cell, simple to explain
"##;
/// `url-shortener.md`.
pub const URL_SHORTENER: &'static str = r##"---
title: "Design a URL Shortener"
tags: [hashing, databases, caching, api-design, key-value-store]
difficulty: medium
estimated_time: 45min
companies: [Google, Amazon, Meta, Microsoft]
---

## Problem Statement

Design a URL shortening service like bit.ly or TinyURL. Users paste a long URL
and receive a short alias (e.g., short.ly/aB3x9z) that permanently redirects to
the original URL.

## Clarifying Questions

Ask these before designing:

- Read/write ratio? (Typical: ~100:1 — reads dominate)
- How many URLs shortened per day? (Assume 100M/day)
- How long should short URLs live? (Assume forever unless deleted)
- Should custom aliases be supported? (Yes, as a stretch goal)
- Analytics needed? (Click counts, geo — defer to later)

## Capacity Estimates

  Write:  100M URLs/day = ~1,200 writes/sec
  Read:   10B redirects/day = ~115,000 reads/sec
  Storage: 100M * 365 * 10 years * 500 bytes ≈ 180 TB over 10 years

## High-Level Design

```
[Client]
   |
   v
[API Gateway / Load Balancer]
   |              |
   v              v
[Write Service] [Read Service]
   |              |
   v              v
[SQL DB]      [Redis Cache]
(source of        |
  truth)      [SQL DB] (cache miss fallback)
```

Two services split by concern:
- Write Service: generates short key, stores mapping, returns alias
- Read Service: looks up alias → redirects (cache-first)

## URL Generation: Hashing vs Counter

Option A — MD5/SHA hash (truncated to 6-7 chars):
  + Stateless, no coordination needed
  - Hash collisions require retry logic
  - Hard to guarantee uniqueness at scale

Option B — Base62 counter (recommended):
  + No collisions, predictable
  + 62^7 = ~3.5 trillion unique keys
  - Requires a global counter (use a dedicated ID service or DB auto-increment)
  - Sequential IDs are guessable — shuffle with a bijection if privacy matters

Base62 alphabet: [0-9][a-z][A-Z] → 62 chars → 7 chars gives 3.5T keys

## Database Schema

  urls
  ┌─────────────┬──────────────────────────────────────────────┐
  │ short_key   │ VARCHAR(8)   PRIMARY KEY                     │
  │ long_url    │ TEXT         NOT NULL                        │
  │ created_at  │ TIMESTAMP    NOT NULL                        │
  │ expires_at  │ TIMESTAMP    NULLABLE                        │
  └─────────────┴──────────────────────────────────────────────┘

Single table. A key-value store (DynamoDB, Redis) also works — reads are pure
lookups with no joins needed.

## Caching Strategy

Use cache-aside (lazy loading):
  1. Read Service checks Redis for short_key
  2. Cache hit → return long_url immediately (< 1ms)
  3. Cache miss → query DB, populate cache, return

TTL: set per URL or a sensible default (e.g., 24h for hot links).
Cache ~20% of URLs to serve ~80% of traffic (Pareto principle).

## Deep Dives

### Collision Handling (if using hashing)
  - Append an incrementing suffix and re-hash on collision
  - Or: pre-generate a pool of unique short keys offline and pull from a queue

### Custom Aliases
  - Accept user-provided key, validate uniqueness before storing
  - Charge or rate-limit to prevent abuse

### Redirects: 301 vs 302
  - 301 Permanent: browser caches — fewer requests hit your servers
  - 302 Temporary: every redirect hits your servers — better for analytics
  - Choose 302 if click tracking matters

### Deletion / Expiry
  - Soft delete: set expires_at, filter on read
  - Background job sweeps expired rows nightly

### Scalability
  - Read Service is stateless — scale horizontally behind a load balancer
  - DB read replicas handle read scale
  - Redis cluster for cache scale
  - Write Service bottleneck is the ID generator — use a token bucket service
    or Snowflake-style distributed ID generation

## Key Decisions to Highlight

1. Base62 counter over hashing — no collisions, simpler retry logic
2. Separate read/write services — scale independently
3. Cache-aside with Redis — absorbs 80%+ of read traffic
4. 302 redirect if analytics are in scope, 301 for pure performance
"##;
/// `web-crawler.md`.
pub const WEB_CRAWLER: &'static str = r##"---
title: "Design a Web Crawler"
tags: [distributed-systems, queues, politeness, deduplication, dns, scraping]
difficulty: medium
estimated_time: 45min
companies: [Google, Bing, Amazon, Cloudflare]
---

## Problem Statement

Design a web crawler that systematically browses the internet, downloads web pages,
and stores their content — the foundational component of a search engine index.

## Clarifying Questions

Ask these before designing:

- Scope: general-purpose or domain-specific? (Assume general-purpose)
- How many pages to crawl? (Assume 1B pages, ~10KB avg = 10 PB raw)
- How often to re-crawl (freshness)? (Assume every 2–4 weeks for most pages)
- Handle JavaScript-rendered content? (No — defer to Phase 2)
- Store raw HTML or parsed content? (Both — raw for re-processing, parsed for indexing)

## Capacity Estimates

  Target: 1B pages crawled over 30 days
  Rate:   ~400 pages/sec sustained
  Storage: 1B * 10KB = 10 TB per crawl cycle
  DNS:    ~400 DNS lookups/sec (cache aggressively)

## High-Level Design

```
[Seed URLs]
     |
     v
[URL Frontier / Priority Queue]
     |
     v
[Fetcher Workers] ──> [DNS Cache]
     |
     v
[HTML Parser / Link Extractor]
     |            |
     v            v
[Content Store] [URL Dedup Filter]
(S3 / HDFS)         |
                     v
              [URL Frontier] (loop)
```

Three core loops:
1. Fetch: pull URL from frontier, download page, store raw HTML
2. Parse: extract links and text from stored HTML
3. Schedule: filter duplicate/already-seen URLs, re-enqueue new ones

## URL Frontier

The frontier is more than a queue — it enforces:

**Politeness:** respect robots.txt and crawl delays per domain.
  - Per-domain back-queue with minimum delay (e.g., 1 req/sec per host)
  - Separate priority queue by importance (PageRank estimate, freshness)

**Priority:**
  - High: news sites, frequently-changing pages
  - Low: deep archive pages, rarely-linked content

Implementation: distributed priority queue (Kafka partitioned by host hash, or
Redis sorted sets for small scale).

## Deduplication

Two levels of dedup are required:

**URL dedup:** don't re-fetch the same URL.
  - Bloom filter in memory (~1 GB for 1B URLs at 1% false positive rate)
  - Persistent seen-set in Redis or a key-value store for durability

**Content dedup:** don't store identical pages under different URLs.
  - Compute SimHash (or MD5) of page content
  - Near-duplicate detection with SimHash bit-difference threshold

## robots.txt

Every crawler MUST obey robots.txt:
  1. Fetch `https://host/robots.txt` once per domain, cache for 24h
  2. Check Disallow rules before fetching any URL from that host
  3. Respect Crawl-delay directive
  4. Set a descriptive User-Agent identifying your crawler

Violating robots.txt risks IP bans and legal issues.

## Deep Dives

### Distributed Fetcher Fleet
  - Stateless fetcher workers — scale horizontally
  - Each worker pulls a batch of URLs for a specific host subset (partitioned to
    respect per-domain politeness)
  - Health checks; failed fetches go back on the queue with a retry count

### Handling Traps
  - Spider traps: dynamically generated infinite URL spaces (e.g., calendars)
    - Limit URL path depth (e.g., max 6 levels deep)
    - Detect patterns: URLs with incrementing query params
  - Duplicate content under canonical vs. non-canonical URLs
    - Follow <link rel="canonical"> headers

### Re-crawl Scheduling
  - Track last-modified headers and ETag — use conditional GET (If-Modified-Since)
  - Pages that change often → shorter re-crawl interval (exponential smoothing)
  - Pages with 404 → back off exponentially then drop after N failures

### DNS at Scale
  - ~400 DNS lookups/sec requires a local caching DNS resolver
  - Batch resolve hostnames ahead of fetch time
  - Respect DNS TTL but cache aggressively for known stable domains

## Key Decisions to Highlight

1. URL Frontier partitioned by host — enforces politeness without coordination overhead
2. Bloom filter for URL dedup — O(1) lookup, probabilistic but tunable
3. Separate fetch → parse → schedule pipeline — each stage scales independently
4. robots.txt compliance cached per domain — respect crawl delay, avoid bans
"##;
/// `whatsapp.md`.
pub const WHATSAPP: &'static str = r##"---
title: "Design a Chat Application (e.g., WhatsApp)"
tags: [messaging, websockets, real-time, persistence, end-to-end-encryption, queues]
difficulty: hard
estimated_time: 60min
companies: [Meta, Google, Discord, Slack, Microsoft]
---

## Problem Statement

Design a real-time chat application where users can send one-on-one and group
messages, with reliable delivery even when recipients are offline.

## Clarifying Questions

Ask these before designing:

- Scale? (Assume 2B users, 100B messages/day)
- Message types? (Text, images, video — start with text)
- Group chat size limit? (Assume max 256 members)
- Message retention? (Assume indefinite, or 90 days for cost)
- End-to-end encryption required? (Mention as a design concern, don't implement)
- Read receipts (delivered/read indicators)? (Yes)

## Capacity Estimates

  Messages:  100B/day = ~1.15M messages/sec
  Storage:   1.15M/sec * 200 bytes avg = ~230 MB/sec = ~20 TB/day
  Active connections: 500M concurrent users maintaining WebSocket connections

## High-Level Design

```
[Client A]                          [Client B]
    |                                    ^
    | WebSocket                          | WebSocket
    v                                    |
[Connection Service (stateful)]     [Connection Service]
    |                                    |
    v                                    |
[Message Service] ──> [Message Queue] ──> [Delivery Service]
    |                                    |
    v                                    v
[Message DB]                    [Push Notification Service]
(Cassandra)                     (APNs / FCM — for offline)
    |
    v
[Media Service] ──> [Object Storage + CDN]
```

## Real-Time Delivery: WebSockets

Maintain a persistent WebSocket connection per active client:
- Client connects → Connection Service maps user_id → server_node in Redis
- Message sent → Message Service routes to recipient's Connection Service node
- If recipient is online → deliver over WebSocket
- If offline → enqueue in Message Queue → deliver on next connect

WebSocket servers are stateful (hold open connections). Scale horizontally
by sharding users across nodes. Use a connection registry (Redis) to know
which node holds a given user's connection.

## Message Delivery Guarantee

**At-least-once delivery with deduplication:**
1. Sender → server: assign message a unique ID (UUID + timestamp)
2. Server stores message in DB before acknowledging sender
3. Server attempts delivery to recipient
4. Recipient sends ACK → server marks as delivered
5. No ACK within timeout → retry (idempotent due to message ID)

Status flow: SENT → DELIVERED → READ

Read receipts: recipient client sends a lightweight ACK message back to sender
through the same WebSocket infrastructure.

## Message Storage: Cassandra

Why Cassandra for messages?
- High write throughput (1M+ writes/sec)
- Time-series data fits column-family model naturally
- No single point of failure; tunable consistency

Schema (wide-row model):

  messages_by_conversation
  partition key: (conversation_id)
  clustering key: (message_id DESC)  ← newest-first ordering
  columns: sender_id, content, type, sent_at, status

  Query pattern: "fetch last 50 messages for conversation X" → single partition scan

Inbox per user:
  inbox
  partition key: (user_id)
  clustering key: (conversation_id, last_message_at DESC)

## Group Messaging: Fan-out

For a group with N members, sending a message requires N deliveries.

**Fan-out on write (recommended for groups ≤ 256):**
  - On send: write N delivery records (one per member) to the queue
  - Delivery workers process each in parallel
  - Simple, low read latency for recipients

**Fan-out on read (for large groups / channels):**
  - Store one copy of message; each reader queries from their last-read pointer
  - Better write efficiency; more complex read path

For group chats ≤ 256: fan-out on write. For broadcast channels (thousands):
fan-out on read with a cursor-based approach.

## Offline Delivery

When a recipient is offline:
1. Message lands in the Message Queue (Kafka topic per user)
2. Push Notification Service sends a notification via APNs (iOS) or FCM (Android)
3. Notification wakes the app → client connects → pulls pending messages
4. Message Queue retains messages for N days (configurable) for late delivery

## Deep Dives

### Media Messages (Images/Video)
  - Client uploads media directly to object storage via pre-signed URL
  - Server stores only the CDN URL reference in the message record
  - Recipient downloads media from CDN — no media bytes through chat servers
  - Thumbnail generated on upload for preview display

### End-to-End Encryption (E2EE)
  - Each client generates a public/private key pair
  - Server stores public keys only; private keys never leave device
  - Sender encrypts message with recipient's public key
  - Server stores and delivers ciphertext; cannot read content
  - Signal Protocol (used by WhatsApp) handles key exchange and rotation

### Message Search
  - E2EE makes server-side search impossible
  - Client-side search: index plaintext locally after decryption
  - Non-E2EE systems: Elasticsearch index on message content

### Presence (Online/Offline Status)
  - Connection Service publishes presence events to Pub/Sub on connect/disconnect
  - User's contacts subscribe to their presence topic
  - Last-seen timestamp stored in Redis with TTL; background heartbeat refreshes it
  - Privacy: allow users to hide presence status

## Key Decisions to Highlight

1. WebSocket + connection registry — routes server-push to the right node
2. Cassandra wide rows — natural fit for time-ordered message history per conversation
3. At-least-once delivery with ACKs — reliability without complex distributed transactions
4. Fan-out on write for groups ≤ 256 — bounded amplification, simple delivery path
"##;
/// `youtube.md`.
pub const YOUTUBE: &'static str = r##"---
title: "Design YouTube / Video Streaming"
tags: [cdn, video-encoding, streaming, object-storage, caching, transcoding]
difficulty: hard
estimated_time: 60min
companies: [Google, Meta, Netflix, TikTok, Microsoft]
---

## Problem Statement

Design a video streaming platform like YouTube where users can upload videos,
and other users can watch them with low buffering and high availability globally.

## Clarifying Questions

Ask these before designing:

- Upload volume? (Assume 500 hours of video uploaded per minute)
- Scale of playback? (Assume 5M concurrent viewers at peak)
- Supported resolutions? (360p, 720p, 1080p, 4K)
- Monetization / ads in scope? (No — defer)
- Live streaming in scope? (No — focus on on-demand)

## Capacity Estimates

  Upload:   500 hrs/min = ~8 hrs/sec of raw video
  Storage:  1 min of 1080p video ≈ 1.5 GB raw → ~150 MB after encoding
            500 hrs/min * 60 * 150 MB * 5 resolutions ≈ 27 TB/min (with all qualities)
            Realistic: ~2 PB/day stored
  Playback: 5M concurrent * 5 Mbps (avg) = 25 Tbps egress → must use CDN

## High-Level Design

```
[User Browser / App]
        |
        | Upload
        v
[Upload Service] ──> [Object Storage (raw)] ──> [Transcoding Workers]
                                                         |
                                                         v
                                                [Object Storage (HLS segments)]
                                                         |
                                                         v
[User Browser / App] <── [CDN Edge Nodes] <── [Origin Servers]
        |
        | Search / Browse
        v
[API Gateway] ──> [Metadata Service] ──> [Metadata DB (SQL)]
                                    ──> [Search Index (Elasticsearch)]
```

Separation of concerns:
- Upload path: raw → transcode → serve
- Playback path: metadata + CDN-delivered segments
- These are independent — a slow transcoding job never blocks playback

## Video Upload Flow

1. Client requests a pre-signed upload URL from Upload Service
2. Client uploads directly to object storage (S3/GCS) — bypasses app servers
3. Object storage triggers an event → Transcoding Job Queue (SQS/Kafka)
4. Transcoding Workers pull jobs, encode to multiple resolutions using FFmpeg
5. Encoded segments uploaded to CDN-backed object storage
6. Metadata Service updated: video status = "ready", segment manifest stored

Pre-signed URLs avoid routing large binary payloads through your API tier.

## Transcoding Pipeline

Raw video → multiple output formats:
  - Resolutions: 360p, 480p, 720p, 1080p, 4K (where applicable)
  - Format: HLS (HTTP Live Streaming) — splits video into ~10s .ts segments
             with an M3U8 manifest file per resolution
  - Codec: H.264 for compatibility, H.265/AV1 for efficiency at higher res

Worker fleet is horizontally scalable — transcoding is CPU-bound and embarrassingly
parallel. Use spot/preemptible instances for cost efficiency.

## Streaming Protocol: HLS vs DASH

HLS (HTTP Live Streaming):
  + Native support on iOS/Safari
  + Widely supported by CDNs
  - Apple-originated; slightly less flexible than DASH

DASH (Dynamic Adaptive Streaming over HTTP):
  + Open standard
  + Better adaptive bitrate flexibility
  - Less native browser support

Adaptive Bitrate (ABR): player monitors bandwidth and switches quality level
on-the-fly by fetching segments from different M3U8 playlists. No server-side
state needed — the player decides.

## CDN Strategy

CDN is the most critical component for playback at scale.

  - Video segments are static files — perfect for CDN edge caching
  - Long TTL (hours/days) for encoded segments; they never change
  - Short TTL for M3U8 manifests (may update for live or newly processed videos)
  - Multi-CDN: use 2+ CDN providers for redundancy and cost negotiation
  - Cache hit rate target: > 95% for popular videos; long-tail videos served from origin

Popular videos: top 1% of videos serve ~80% of traffic — these stay hot in CDN.
Long-tail: rare videos miss CDN, served directly from object storage via origin pull.

## Metadata Service

Stores video metadata separately from video bytes:

  videos
  ┌──────────────┬──────────────────────────────────┐
  │ video_id     │ UUID        PRIMARY KEY           │
  │ user_id      │ UUID        NOT NULL              │
  │ title        │ VARCHAR     NOT NULL              │
  │ description  │ TEXT                              │
  │ status       │ ENUM(processing, ready, failed)   │
  │ manifest_url │ TEXT        (CDN URL to M3U8)     │
  │ duration_sec │ INT                               │
  │ created_at   │ TIMESTAMP                         │
  └──────────────┴──────────────────────────────────┘

Search: Elasticsearch index on title, description, tags — updated asynchronously
after video is ready.

## Deep Dives

### Resumable Uploads
  - Large video files need resumable upload support (network drops)
  - Use chunked upload protocol: client uploads in 5–50 MB chunks
  - Server tracks received chunks; client can resume from last successful chunk
  - GCS and S3 support this natively

### Deduplication
  - Perceptual hash (pHash) of video frames detects re-uploads of same content
  - Can skip re-transcoding if identical content already exists
  - Important for copyright enforcement (Content ID-style system)

### Thumbnail Generation
  - Extract keyframes during transcoding at 1s, 5s, 10s intervals
  - Store as images in object storage, serve via CDN
  - Auto-select or allow creator to choose

### Geographic Replication
  - Replicate popular video segments to CDN PoPs closest to user density
  - Hot video prediction: if a video trends, proactively push to more edge nodes
  - Cold storage: videos with < 100 views/month moved to Glacier/Coldline

## Key Decisions to Highlight

1. Pre-signed upload URLs — offload binary upload traffic from API servers
2. HLS segmentation — enables adaptive bitrate and CDN edge caching
3. CDN-first delivery — without CDN, egress at 5M concurrent viewers is impossible
4. Async transcoding pipeline — upload and playback are decoupled; failure is isolated
"##;
/// The files of this module's content directory.
pub open spec fn files_spec() -> Seq<ContentFileView> {
    seq![
        ContentFileView { path: "system-design/distributed-cache.md"@, contents: DISTRIBUTED_CACHE@ },
        ContentFileView { path: "system-design/dropbox.md"@, contents: DROPBOX@ },
        ContentFileView { path: "system-design/notification-system.md"@, contents: NOTIFICATION_SYSTEM@ },
        ContentFileView { path: "system-design/rate-limiter.md"@, contents: RATE_LIMITER@ },
        ContentFileView { path: "system-design/twitter-feed.md"@, contents: TWITTER_FEED@ },
        ContentFileView { path: "system-design/uber.md"@, contents: UBER@ },
        ContentFileView { path: "system-design/url-shortener.md"@, contents: URL_SHORTENER@ },
        ContentFileView { path: "system-design/web-crawler.md"@, contents: WEB_CRAWLER@ },
        ContentFileView { path: "system-design/whatsapp.md"@, contents: WHATSAPP@ },
        ContentFileView { path: "system-design/youtube.md"@, contents: YOUTUBE@ },
    ]
}

/// The files of this module's content directory.
pub fn files() -> (files: Vec<ContentFile>)
    ensures
        files@.map_values(|f: ContentFile| f@) == files_spec(),
{
    let mut files: Vec<ContentFile> = Vec::new();
    files.push(ContentFile { path: "system-design/distributed-cache.md", contents: DISTRIBUTED_CACHE });
    files.push(ContentFile { path: "system-design/dropbox.md", contents: DROPBOX });
    files.push(ContentFile { path: "system-design/notification-system.md", contents: NOTIFICATION_SYSTEM });
    files.push(ContentFile { path: "system-design/rate-limiter.md", contents: RATE_LIMITER });
    files.push(ContentFile { path: "system-design/twitter-feed.md", contents: TWITTER_FEED });
    files.push(ContentFile { path: "system-design/uber.md", contents: UBER });
    files.push(ContentFile { path: "system-design/url-shortener.md", contents: URL_SHORTENER });
    files.push(ContentFile { path: "system-design/web-crawler.md", contents: WEB_CRAWLER });
    files.push(ContentFile { path: "system-design/whatsapp.md", contents: WHATSAPP });
    files.push(ContentFile { path: "system-design/youtube.md", contents: YOUTUBE });
    assert(files@.map_values(|f: ContentFile| f@) =~= files_spec());
    files
}

/// Every file of this module's content directory lies under `system-design/`.
pub proof fn lemma_files_under_directory()
    ensures
        files_spec().len() == 10,
        forall|k: int|
            0 <= k < files_spec().len() ==> "system-design/"@.is_prefix_of(#[trigger] files_spec()[k].path),
{
    reveal_strlit("system-design/");
    reveal_strlit("system-design/distributed-cache.md");
    reveal_strlit("system-design/dropbox.md");
    reveal_strlit("system-design/notification-system.md");
    reveal_strlit("system-design/rate-limiter.md");
    reveal_strlit("system-design/twitter-feed.md");
    reveal_strlit("system-design/uber.md");
    reveal_strlit("system-design/url-shortener.md");
    reveal_strlit("system-design/web-crawler.md");
    reveal_strlit("system-design/whatsapp.md");
    reveal_strlit("system-design/youtube.md");
    assert("system-design/distributed-cache.md"@.subrange(0, 14) =~= "system-design/"@);
    assert("system-design/dropbox.md"@.subrange(0, 14) =~= "system-design/"@);
    assert("system-design/notification-system.md"@.subrange(0, 14) =~= "system-design/"@);
    assert("system-design/rate-limiter.md"@.subrange(0, 14) =~= "system-design/"@);
    assert("system-design/twitter-feed.md"@.subrange(0, 14) =~= "system-design/"@);
    assert("system-design/uber.md"@.subrange(0, 14) =~= "system-design/"@);
    assert("system-design/url-shortener.md"@.subrange(0, 14) =~= "system-design/"@);
    assert("system-design/web-crawler.md"@.subrange(0, 14) =~= "system-design/"@);
    assert("system-design/whatsapp.md"@.subrange(0, 14) =~= "system-design/"@);
    assert("system-design/youtube.md"@.subrange(0, 14) =~= "system-design/"@);
}

} // verus!
