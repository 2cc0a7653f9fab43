//! The study notes of the Cloud Architecture module.
use vstd::prelude::*;
use crate::content::{ContentFile, ContentFileView};

verus! {
/// `caching.md`.
pub const CACHING: &'static str = r##"---
title: "Caching"
tags: [caching, redis, memcached, cache-aside, write-through, eviction, ttl]
difficulty: medium
estimated_time: 25min
---

## Overview

Caching stores frequently accessed data in fast memory to reduce latency and offload pressure from
databases and downstream services. A well-designed cache can serve 80–95% of reads without hitting
the database, dramatically improving throughput and reducing cost. The tradeoff is cache
invalidation complexity — "there are only two hard things in computer science: cache invalidation
and naming things."

Redis and Memcached are the two dominant in-memory caches. Memcached is simpler: a pure LRU cache
with string values, multi-threaded, and no persistence. Redis is a full data structure server:
strings, hashes, sorted sets, lists, bitmaps, pub/sub, Lua scripting, and optional persistence
(RDB snapshots, AOF logging). Redis supports clustering and replication; Memcached scales through
consistent hashing across independent nodes. For most new systems, Redis is the default choice.

Cache placement strategies determine when the cache is populated. Cache-aside (lazy loading) only
fetches data on a cache miss, so the cache only holds hot data. Write-through populates the cache
on every write, ensuring cache and DB are always in sync, but wastes memory on cold data. Write-
behind (write-back) writes to cache first and flushes to DB asynchronously — fast writes but
durability risk if the cache fails before the flush.

Multi-level caching adds an in-process cache (L1) in front of Redis (L2) and a CDN edge cache (L3).
Each layer reduces latency further but adds consistency complexity — invalidating across layers
requires careful coordination.

## When to Use

- **Cache-aside**: default for read-heavy workloads. Works well when cache misses are acceptable
  and data is read far more often than written.
- **Write-through**: when you need the cache always warm and can afford the write latency penalty
  (double-write to cache + DB).
- **Write-behind**: write-heavy workloads where durability can be deferred (analytics counters,
  session data, non-critical updates).
- **Redis sorted sets**: leaderboards, rate limiting (sliding window counters), priority queues.
- **Redis as a session store**: stateless API servers with shared session state.

## Trade-offs & Gotchas

- Cache stampede (thundering herd): many requests miss the cache simultaneously (e.g., after TTL
  expiry) and hammer the DB. Mitigate with: mutex locking on cache miss, probabilistic early
  expiry (refresh before TTL expires), or background refresh.
- Cache inconsistency: with cache-aside, a write updates the DB but the cache still serves stale
  data until TTL expires. For strong consistency, invalidate or update the cache key on every
  write.
- Eviction policies: LRU (evict least recently used) is the most common. LFU (least frequently
  used) is better when access frequency matters more than recency. TTL-based expiry handles
  time-sensitive data. allkeys-lru is Redis's recommended policy for pure caches.
- Redis persistence trades memory for durability — AOF logging incurs write amplification.
  Disable persistence if Redis is a pure cache (data can be re-populated from DB on restart).
- Cache key design: include all dimensions that affect the result (user_id, locale, version) to
  avoid serving wrong data. Namespace keys to prevent collisions (e.g., "user:123:profile").
- Memory is finite — set maxmemory and an eviction policy, or Redis will OOM and crash.

## Architecture Diagram

```
  Cache-Aside (Lazy Loading):
  [App]
    |
    +--> [Redis] -- hit --> return value
    |         \-- miss
    |          \--> [DB] --> populate cache --> return value

  Write-Through:
  [App] --> [Cache] --> [DB]  (both writes happen synchronously)

  Write-Behind:
  [App] --> [Cache] --> return (fast)
                  |
             [Async Worker] --> [DB] (eventual flush)

  Multi-Level Cache:
  [Request]
      |
  [L1: in-process HashMap] -- hit --> <1ms
      |-- miss
  [L2: Redis Cluster]       -- hit --> ~1ms
      |-- miss
  [L3: CDN Edge]            -- hit --> ~10ms
      |-- miss
  [Origin DB/API]                    ~50-200ms

  Eviction Policies:
  LRU    -- general purpose, default
  LFU    -- better for skewed access patterns
  TTL    -- time-sensitive data (auth tokens, rate limit windows)
  Random -- simple, low overhead (rare)
```

## Key Interview Points

- Cache-aside is the default; explicitly discuss invalidation strategy (TTL vs active invalidation).
- Cache stampede is the #1 cache failure mode — mention mutex or probabilistic early expiry.
- Redis >> Memcached for new systems: richer data structures, persistence options, cluster mode.
- Always set a TTL — unbounded cache growth leads to eviction storms or OOM.
- Write-behind is fast but dangerous: a Redis failure before the async flush = data loss. Only use
  for non-critical data or when the DB write can be reconstructed.
- Mention cache key namespacing and versioning to handle cache invalidation on deploys.
"##;
/// `compute.md`.
pub const COMPUTE: &'static str = r##"---
title: "Cloud Compute"
tags: [compute, vms, containers, serverless, auto-scaling, kubernetes]
difficulty: easy
estimated_time: 20min
---

## Overview

Cloud compute offers three primary deployment models: virtual machines (VMs), containers, and
serverless functions. Each trades off control, operational overhead, cold-start latency, and cost
differently. Picking the right model in a system design interview signals architectural maturity.

Virtual machines provide full OS-level isolation with the most control — you choose the CPU,
memory, OS, and runtime. They are slow to provision (minutes), carry the highest operational
burden (patching, AMI management), but have zero cold-start latency once running and support
any workload. Use VMs for stateful services, databases, or specialized hardware (GPU instances).

Containers (Docker + Kubernetes) share the host OS kernel, start in seconds, and pack more
workloads per host than VMs. Kubernetes adds orchestration: scheduling, health checks, rolling
deploys, and horizontal scaling. The tradeoff is operational complexity — running a Kubernetes
cluster requires significant investment. Managed services (EKS, GKE, AKS) reduce but don't
eliminate that burden.

Serverless functions (Lambda, Cloud Functions) abstract away all infrastructure. You deploy code
and pay per invocation. Scaling is automatic and instant — but cold starts (100ms–2s) affect
latency-sensitive paths, execution is time-limited (15min for Lambda), and local state is
ephemeral. Best suited for event-driven, bursty, or infrequent workloads.

## When to Use

- **VMs**: long-running stateful services, GPU workloads, legacy apps, anything needing OS-level
  access or specialized hardware.
- **Containers (K8s)**: microservices, APIs, batch jobs — when you need portability and want
  consistent environments from dev to prod.
- **Serverless**: event handlers, webhook processors, scheduled jobs, glue code between services,
  or spiky workloads with low baseline traffic.
- **Auto-scaling**: always mention it for stateless services that see variable traffic. State the
  metric you'd scale on (CPU, request count, queue depth).

## Trade-offs & Gotchas

- Serverless cold starts hurt p99 latency — mitigate with provisioned concurrency (Lambda) or
  by keeping functions warm with scheduled pings. Not suitable for hard latency SLAs.
- Kubernetes is powerful but operationally heavy. Don't propose self-managed K8s unless you
  have a reason; prefer managed (EKS/GKE).
- Auto-scaling has a cooldown period (default 300s for AWS ASG) — size your baseline capacity
  to absorb traffic spikes during scale-out lag.
- Vertical scaling (bigger instance) has an upper bound and requires a restart; horizontal scaling
  (more instances) is preferred for stateless services.
- Containers don't solve all portability problems — OS-specific dependencies and stateful storage
  remain tricky.
- Scale-in (terminating instances) can cause dropped connections — use connection draining and
  graceful shutdown hooks.

## Architecture Diagram

```
  VM-based:
  [Load Balancer] --> [EC2 Instance 1]
                  --> [EC2 Instance 2]   (Auto Scaling Group)
                  --> [EC2 Instance N]

  Container-based (Kubernetes):
  [Load Balancer]
       |
  [Ingress Controller]
       |
  [Service]
   /       \
[Pod 1]  [Pod 2]   (Deployment, HPA scales pod count)
   |         |
  [Node 1] [Node 2] (EC2 instances / managed node group)

  Serverless:
  [API Gateway] --> [Lambda Function] --> [DynamoDB]
  [S3 Event]    --> [Lambda Function] --> [SQS]
  [CloudWatch]  --> [Lambda (cron)]   --> [RDS]

  Auto-scaling triggers:
  CPU > 70%  --> scale out (+2 instances)
  CPU < 30%  --> scale in  (-1 instance, with cooldown)
  Queue depth > 1000 --> scale out workers
```

## Key Interview Points

- Lead with containers/K8s for microservice APIs; serverless for event-driven or spiky workloads;
  VMs only when you need OS control or stateful storage.
- Always pair stateless horizontal scaling with a load balancer — make this explicit.
- Serverless cold starts are a real concern — mention provisioned concurrency for latency-critical
  paths or use containers with K8s instead.
- Auto-scaling metrics: CPU is a proxy; prefer request-rate or queue-depth for more direct scaling
  signals.
- Spot/Preemptible instances cut costs 60-90% for fault-tolerant batch workloads — worth
  mentioning for data processing pipelines.
- Cooldown periods and connection draining prevent scale-in from causing errors.
"##;
/// `databases.md`.
pub const DATABASES: &'static str = r##"---
title: "Managed Cloud Databases"
tags: [rds, dynamodb, data-warehouse, elasticache, aurora, managed-databases]
difficulty: medium
estimated_time: 20min
---

## Overview

Cloud providers offer fully managed database services that eliminate the operational burden of
provisioning, patching, backups, and replication. The tradeoff is less control (can't tune the OS
or storage engine directly) and higher cost per GB than self-managed. For most system design
scenarios, managed databases are the right default choice.

Managed relational databases (RDS PostgreSQL/MySQL, Cloud SQL, Azure Database) handle automated
backups, point-in-time recovery, Multi-AZ failover, and read replicas out of the box. Multi-AZ
maintains a synchronous standby in another AZ — failover is automatic and takes 60–120 seconds.
Read replicas use asynchronous replication and can lag behind the primary by seconds to minutes;
never use them for reads that require up-to-the-second consistency.

Managed NoSQL services (DynamoDB, Cosmos DB, Firestore) trade schema flexibility and SQL
expressiveness for single-digit millisecond latency at any scale with no capacity planning for
DynamoDB on-demand mode. DynamoDB's key design constraint: you must model access patterns
upfront — ad-hoc queries that don't align with your partition key require expensive scans.

Data warehouses (Redshift, BigQuery, Snowflake) are OLAP systems: columnar storage, optimized for
analytical queries over billions of rows, not for transactional workloads. They are append-heavy,
batch-loaded, and separate from your operational database.

## When to Use

- **RDS/Aurora**: transactional workloads, relational data, existing SQL skills. Aurora is
  MySQL/Postgres-compatible with 5x throughput and auto-storage scaling.
- **DynamoDB**: key-value or simple query patterns needing massive scale and predictable latency
  (leaderboards, session stores, shopping carts, user profiles).
- **Redshift/BigQuery**: analytics, reporting, BI dashboards — queries over the full dataset.
- **ElastiCache (Redis/Memcached)**: caching layer in front of any database; also used for rate
  limiting, session storage, pub/sub.
- **Aurora Serverless**: dev/staging environments or workloads with highly variable or
  unpredictable traffic.

## Trade-offs & Gotchas

- RDS Multi-AZ failover takes 60–120s — not zero downtime. Use connection retry logic in app code.
- Read replica replication lag means reads can be stale — don't route consistency-sensitive reads
  to replicas.
- DynamoDB hot partition problem: if all traffic hits the same partition key (e.g., today's date),
  you'll throttle. Design partition keys for uniform distribution.
- DynamoDB on-demand mode is ~6x more expensive per request than provisioned with auto-scaling
  at predictable load — use provisioned for steady traffic.
- RDS connection limits are tied to instance size — at high concurrency, use RDS Proxy to pool
  connections and avoid exhausting the DB.
- Data warehouse queries can be expensive: always partition tables and use columnar formats.
  BigQuery charges by bytes scanned.

## Architecture Diagram

```
  Transactional (OLTP):
  [App] --> [RDS Proxy] --> [RDS Primary (Multi-AZ)]
                                  |
                         [RDS Read Replica] <-- read-heavy queries
                                  |
                         [RDS Standby AZ-2] <-- auto-failover

  High-Scale NoSQL:
  [App] --> [DynamoDB Table]
             partition: user_id
             sort key:  timestamp
             GSI: email -> user_id  (for login lookup)

  Analytics Pipeline:
  [RDS] --> [DMS / ETL]  --> [S3 Data Lake]
  [App events]                     |
                             [Redshift/BigQuery]
                                   |
                             [BI Dashboard]

  Caching Layer:
  [App] --> [ElastiCache Redis] --> (cache miss) --> [RDS]
```

## Key Interview Points

- RDS Multi-AZ = HA (failover), read replicas = scalability (scale reads) — they serve different
  purposes. Don't conflate them.
- For DynamoDB, always discuss access patterns before choosing it — if you need flexible queries,
  use RDS instead.
- Use RDS Proxy at scale to prevent connection exhaustion — Lambda -> RDS without a proxy will
  exhaust DB connections under load.
- Separate OLTP (RDS/DynamoDB) from OLAP (Redshift/BigQuery) — never run analytics queries
  directly on your production database.
- Aurora Global Database: primary in one region, read-only replicas in up to 5 others with ~1s
  replication lag — good for global read-heavy workloads.
- Mention automated backups and point-in-time recovery in any design with persistent data.
"##;
/// `load-balancing.md`.
pub const LOAD_BALANCING: &'static str = r##"---
title: "Load Balancing"
tags: [load-balancing, alb, nlb, l4, l7, health-checks, routing-algorithms]
difficulty: medium
estimated_time: 20min
---

## Overview

A load balancer distributes incoming traffic across a pool of backend servers, providing
horizontal scalability and high availability. Without a load balancer, a single server becomes
both a throughput bottleneck and a single point of failure. Every scalable system design places
a load balancer in front of stateless service tiers.

Load balancers operate at different OSI layers. Layer 4 (transport) load balancers route based
on IP address and TCP/UDP port — they're fast and protocol-agnostic but cannot inspect HTTP
content. Layer 7 (application) load balancers terminate HTTP/HTTPS, read headers, paths, and
cookies, and can make routing decisions based on that content. L7 is slower than L4 due to
the additional parsing but far more flexible.

On AWS, the Application Load Balancer (ALB) operates at L7 and is the standard choice for
HTTP/HTTPS workloads. It supports path-based routing (/api/* → API servers, /static/* → S3),
host-based routing (api.example.com vs static.example.com), WebSocket, and HTTP/2. The Network
Load Balancer (NLB) operates at L4, handles millions of requests per second with ultra-low
latency, supports static Elastic IPs, and integrates with AWS PrivateLink.

## When to Use

- **ALB**: HTTP/HTTPS microservices, REST APIs, WebSocket connections, routing to multiple
  target groups based on path or hostname.
- **NLB**: TCP/UDP workloads, extreme throughput requirements, static IP requirements,
  gaming servers, IoT, or any non-HTTP protocol.
- **Global load balancing**: multi-region deployments — route users to the nearest region
  using latency-based DNS (Route 53) or Anycast (AWS Global Accelerator).
- **Internal LB**: service-to-service communication within a VPC — expose services privately
  without going through the internet.

## Trade-offs & Gotchas

- ALB adds ~1ms of latency vs NLB ~0.1ms — negligible for most applications, significant for
  high-frequency trading or real-time gaming.
- Sticky sessions (session affinity) bind a user to a specific backend instance, breaking true
  statelessness. Prefer stateless backends with shared session storage (Redis) instead.
- Health check tuning matters: too aggressive (short intervals, low thresholds) causes flapping;
  too lenient means traffic routes to unhealthy instances longer than necessary.
- Connection draining (deregistration delay): give in-flight requests time to complete before
  removing an instance from the pool (default 300s on AWS).
- ALB does not support static IPs — use NLB or Global Accelerator if you need to whitelist IPs
  (e.g., for firewall rules at enterprise customers).
- Weighted routing enables canary deploys: send 5% of traffic to a new target group and
  gradually increase as confidence grows.

## Architecture Diagram

```
  L7 (ALB) Path-Based Routing:
  [Internet]
      |
  [ALB :443]
   /         \
[/api/*]   [/static/*]
    |            |
[API Servers] [S3 / Lambda]

  L4 (NLB) TCP Pass-Through:
  [Client] --> [NLB] --> [Backend Pool]
  (TLS terminated at backend, static IP on NLB)

  Global Load Balancing:
  [User: US-East] --> [Route 53 latency] --> [us-east-1 ALB]
  [User: EU]      --> [Route 53 latency] --> [eu-west-1 ALB]
                            |
                    (failover: if health check fails,
                     route to secondary region)

  Routing Algorithms:
  Round Robin       -- equal distribution, simple
  Least Connections -- better for variable request duration
  IP Hash           -- sticky by client IP (session affinity without cookies)
  Weighted          -- canary deploys, A/B testing
```

## Key Interview Points

- L4 = IP/port routing, fast, protocol-agnostic. L7 = HTTP-aware, content-based routing, more flexible.
- ALB is the default for HTTP workloads; NLB for TCP/UDP, static IPs, or extreme throughput.
- Always mention health checks — a load balancer is only as good as its ability to detect and
  remove unhealthy backends.
- Avoid sticky sessions; prefer stateless backends with a shared session store (Redis/ElastiCache).
- Connection draining prevents dropped in-flight requests during deployments or scale-in events.
- For global systems, combine regional ALBs with Route 53 latency routing or Global Accelerator
  for Anycast edge termination.
"##;
/// `messaging.md`.
pub const MESSAGING: &'static str = r##"---
title: "Messaging & Event Streaming"
tags: [messaging, kafka, sqs, sns, pub-sub, event-streaming, dlq, queues]
difficulty: medium
estimated_time: 25min
---

## Overview

Messaging systems decouple producers from consumers, enabling async processing, load leveling, and
fault tolerance. There are two primary models: message queues (point-to-point) and pub/sub
(fan-out). Understanding when to reach for each — and which technology backs it — is essential
for any distributed system design.

Message queues (SQS, RabbitMQ) deliver each message to exactly one consumer. A producer enqueues
a message; a consumer polls, processes, and deletes it. If processing fails, the message becomes
visible again after the visibility timeout and gets retried. After a configurable number of retries
the message moves to a Dead Letter Queue (DLQ) for inspection. Queues provide at-least-once
delivery — consumers must be idempotent.

Pub/sub (SNS, Google Pub/Sub) delivers each message to all subscribers of a topic. A single
publish fans out to N subscribers simultaneously — useful for triggering multiple independent
workflows from one event (e.g., an order event triggers inventory, billing, and notification
services). SNS → SQS fan-out is a common pattern: SNS fans out, each downstream service has its
own SQS queue for buffering and independent scaling.

Kafka is a distributed log, not just a queue. Messages are persisted to disk with configurable
retention (days, weeks, forever). Consumer groups track their own offset — multiple independent
consumers can read the same stream without interfering. Kafka excels at high-throughput event
streaming, audit logs, CDC (change data capture), and any use case requiring replay. The
tradeoff: operational complexity and higher baseline cost than managed queues.

## When to Use

- **SQS Standard**: async task offloading, decoupling microservices, work queues (image
  processing, email sending, report generation).
- **SQS FIFO**: ordered processing (financial transactions, state machines) — 3,000 msg/s
  throughput limit; higher cost.
- **SNS**: fan-out to multiple subscribers, sending push notifications (mobile, email, SMS).
- **Kafka**: high-throughput event streams, audit logs, CDC pipelines, event sourcing,
  stream processing (Flink, Spark Streaming), any case needing replay or multiple consumers.
- **DLQ**: always configure one — it's your safety net for poison-pill messages.

## Trade-offs & Gotchas

- SQS is at-least-once — duplicate messages are possible. Consumers must be idempotent (use an
  idempotency key stored in a DB or cache).
- SQS visibility timeout must be longer than your max processing time, or messages will be
  re-delivered while still being processed.
- Kafka ordering is per-partition, not global. To order all events for a given entity (e.g.,
  a user), use the entity ID as the partition key.
- Kafka consumer group rebalancing pauses consumption — design for graceful rebalance handling.
- SNS → SQS fan-out adds one hop of latency; for extremely latency-sensitive paths, consider
  direct invocation.
- Dead letter queues need monitoring and alerting — a growing DLQ depth is a leading indicator
  of a downstream processing bug.
- Backpressure: a queue absorbs bursts and prevents your consumers from being overwhelmed, but
  an unbounded queue can grow until it causes memory/storage issues or causes unacceptable lag.

## Architecture Diagram

```
  Task Queue (SQS):
  [Producer] --> [SQS Queue] --> [Consumer Group]
                     |                   |
                 (on failure)     (process & delete)
                     v
                 [DLQ] --> [Alert / Manual Review]

  Fan-out (SNS + SQS):
  [Order Service]
       |
  [SNS Topic: order.placed]
   /         |          \
[SQS]      [SQS]      [SQS]
Inventory  Billing   Notifications

  Kafka Event Stream:
  [Producers] --> [Kafka Topic (N partitions)]
                        |
              +---------+---------+
              |                   |
  [Consumer Group A]   [Consumer Group B]
  (Analytics)          (Notifications)
  (independent offsets, no interference)
```

## Key Interview Points

- Queue = point-to-point (one consumer gets the message). Pub/sub = fan-out (all subscribers get it).
- Use SNS + SQS fan-out pattern when one event must trigger multiple independent services.
- Always configure a DLQ with alerting on depth > 0 — silent message drops are the worst kind
  of bug.
- Kafka for high throughput, replay, multi-consumer, or audit log requirements. SQS for simpler
  async task queues.
- Idempotency is non-negotiable with at-least-once delivery — design consumers to handle
  duplicate messages safely.
- Kafka partition key determines ordering and consumer assignment — choose it based on your
  ordering requirements (e.g., user_id for per-user ordering).
"##;
/// `multi-region.md`.
pub const MULTI_REGION: &'static str = r##"---
title: "Multi-Region Architecture"
tags: [multi-region, active-active, active-passive, failover, replication, rto, rpo, split-brain]
difficulty: hard
estimated_time: 30min
---

## Overview

Multi-region architecture deploys your system across two or more geographic regions, providing
resilience against regional failures and lower latency for global users. It is one of the most
complex architectural decisions — coordination overhead, replication lag, and consistency
trade-offs compound. Only reach for it when your RTO/RPO requirements or global user base
justify the cost and complexity.

Active-passive (warm/cold standby) designates one region as primary for all traffic. The secondary
region maintains a replica of data and infrastructure, ready to take over if the primary fails.
Warm standby keeps the secondary running at reduced capacity (fast failover, ~minutes). Cold
standby shuts down non-essential resources in the secondary (slower failover, lower cost). All
writes go to the primary; the secondary receives asynchronous replication updates. RTO (recovery
time) is minutes to an hour depending on automation.

Active-active runs traffic simultaneously in multiple regions. Each region handles a subset of
users (typically by geography). Write coordination is the hard problem: concurrent writes to the
same record in different regions can conflict. Solutions include: master-per-shard routing (user
always writes to their home region), last-write-wins (LWW) with vector clocks, or using a globally
consistent database (Spanner, CockroachDB) that handles distributed transactions. Active-active
achieves lower RTO and lower read latency, but significantly higher complexity.

RTO (Recovery Time Objective) is the maximum acceptable downtime after a failure. RPO (Recovery
Point Objective) is the maximum acceptable data loss (measured in time). Synchronous replication
gives RPO=0 (no data loss) but increases write latency by the inter-region network RTT (~70ms
US-EU). Asynchronous replication reduces write latency but introduces replication lag, meaning
RPO > 0 if the primary fails before the secondary catches up.

## When to Use

- **Active-passive (warm standby)**: regulated industries requiring DR, services with RTO < 1hr
  and RPO < 15min, or when global write distribution isn't needed.
- **Active-active**: global products where latency for users in different continents matters,
  or when you need RTO near zero.
- **Global databases** (DynamoDB Global Tables, Spanner, CockroachDB): when you need multi-region
  writes with automatic conflict resolution and don't want to build it yourself.

## Trade-offs & Gotchas

- Synchronous cross-region replication: US-East to EU adds ~70ms RTT to every write. For a
  database with synchronous standby, this directly increases write latency.
- Asynchronous replication lag means your secondary can be seconds to minutes behind the primary.
  If you fail over, you may lose that window of writes (RPO > 0).
- DNS-based failover is limited by TTL: even with TTL=60s, some resolvers cache longer.
  AWS Route 53 health-check failover typically takes 1–2 minutes end-to-end.
- Split-brain: both regions think they are the primary and accept writes independently, causing
  data divergence. Prevent with: fencing tokens, primary lease with heartbeat, or quorum-based
  writes that require acknowledgment from N/2+1 nodes.
- Data sovereignty / compliance: GDPR requires EU user data to stay in EU. Multi-region designs
  must account for data residency requirements — you may not be able to replicate all data
  globally.
- Cost: active-active doubles (or more) your infrastructure cost. Active-passive warm standby
  is typically 30–50% more than single-region.

## Architecture Diagram

```
  Active-Passive (Warm Standby):
  [Route 53]
  health check on primary -->
       |
  [Primary: us-east-1]       [Standby: eu-west-1]
  [All traffic]              [Warm replica]
       |                           ^
  [RDS Primary] ---async replication--> [RDS Replica]
                                        (promoted on failover)

  Active-Active:
  [Route 53 / Global Accelerator]
     |                         |
  [us-east-1]            [eu-west-1]
  [US Users]             [EU Users]
       |                       |
  [DynamoDB Global Table] -- bidirectional replication -- [DynamoDB Global Table]
  (eventual consistency, ~1s replication lag)

  RTO / RPO Matrix:
                    Cold Standby | Warm Standby | Active-Active
  RTO               Hours        | Minutes      | Seconds
  RPO               Minutes      | Seconds      | Near-zero
  Cost Overhead     Low (+20%)   | Medium (+40%)| High (+100%)
  Complexity        Low          | Medium       | High
```

## Key Interview Points

- Always clarify RTO and RPO requirements before proposing multi-region — don't over-engineer.
- Active-passive is simpler and sufficient for most DR requirements. Active-active only when
  global write latency or near-zero RTO is required.
- Synchronous replication = RPO 0, higher write latency. Async replication = lower latency,
  non-zero RPO.
- Split-brain is the most dangerous failure mode in active-active — discuss how you'd prevent it
  (quorum writes, primary leases, fencing).
- Data residency (GDPR, CCPA) may constrain which data can be replicated across regions — always
  mention this for products with EU users.
- DynamoDB Global Tables and Spanner abstract away multi-region write complexity — mention them
  as alternatives to rolling your own replication logic.
"##;
/// `networking.md`.
pub const NETWORKING: &'static str = r##"---
title: "Cloud Networking"
tags: [vpc, subnets, nat, cdn, dns, networking, security-groups]
difficulty: medium
estimated_time: 25min
---

## Overview

A Virtual Private Cloud (VPC) is a logically isolated network within a cloud provider where you
launch resources. You define the IP address space (CIDR block, e.g. 10.0.0.0/16), divide it into
subnets, and control traffic with routing tables and firewalls. Every production system lives inside
a VPC — understanding its structure is foundational to any cloud architecture answer.

Subnets are subdivisions of the VPC CIDR, each pinned to a single Availability Zone. Public subnets
have a route to an Internet Gateway (IGW), so resources in them can receive inbound internet
traffic. Private subnets have no direct internet route — outbound-only access goes through a NAT
Gateway. Best practice: put application servers and databases in private subnets, and only expose
load balancers in public subnets.

DNS and CDNs sit at the edge of your architecture. Route 53 (or equivalent) resolves domain names
and can implement intelligent routing policies to direct users to the nearest or healthiest region.
CDNs push static and cacheable content to edge locations worldwide, reducing latency and origin
load.

## When to Use

In every system design answer involving cloud infrastructure, establish the network topology early:
- "I'd put the API servers in private subnets behind an ALB in the public subnet."
- Mention NAT Gateway when private instances need to pull packages or call external APIs.
- Use Route 53 latency-based routing when designing multi-region systems.
- Propose a CDN (CloudFront, Fastly) whenever serving static assets, video, or geographically
  distributed users.

## Trade-offs & Gotchas

- NAT Gateway is a managed single-AZ service — deploy one per AZ for HA, or accept the AZ
  dependency. Cost adds up at high egress volumes.
- VPC Peering is non-transitive: if A peers with B and B peers with C, A cannot reach C.
  Use Transit Gateway for hub-and-spoke multi-VPC topologies.
- Security Groups are stateful (return traffic is automatically allowed). NACLs are stateless
  (you must explicitly allow both inbound and outbound). NACLs operate at the subnet level.
- CDN cache invalidation is slow and costly — design URLs to be cache-busted by version
  (e.g., /assets/app.v3.js) rather than relying on invalidation.
- Route 53 TTLs affect failover speed: low TTL = faster failover, higher DNS query cost.
- IPv4 CIDR planning is permanent — plan for growth. A /16 gives 65k addresses; /24 gives 256.

## Architecture Diagram

```
                         Internet
                            |
                    [Internet Gateway]
                            |
            +---------------+---------------+
            |                               |
    [Public Subnet AZ-1]           [Public Subnet AZ-2]
    [ALB / Bastion]                [ALB / Bastion]
            |                               |
    [NAT Gateway]                  [NAT Gateway]
            |                               |
    [Private Subnet AZ-1]          [Private Subnet AZ-2]
    [App Servers]                  [App Servers]
            |                               |
    [Private Subnet AZ-1]          [Private Subnet AZ-2]
    [RDS Primary]                  [RDS Replica]

    VPC Peering / Transit Gateway connects to other VPCs
    Route 53 routes DNS -> ALB (latency/failover/weighted)
    CDN (CloudFront) sits in front of ALB or S3 origin
```

## Key Interview Points

- Always put databases and app servers in private subnets — only LBs go in public subnets.
- One NAT Gateway per AZ for high availability; cross-AZ NAT traffic incurs data transfer costs.
- VPC Peering for simple two-VPC connectivity; Transit Gateway for 3+ VPCs or transitive routing.
- Route 53 routing policies: latency-based (performance), failover (HA), geolocation (compliance),
  weighted (canary deploys / A/B testing).
- CDN reduces origin load and latency — mention it whenever serving media, SPAs, or global users.
- Security Groups = instance-level stateful firewall. NACLs = subnet-level stateless firewall.
  Use SGs as your primary control; NACLs for broad subnet-level denies.
"##;
/// `observability.md`.
pub const OBSERVABILITY: &'static str = r##"---
title: "Observability"
tags: [observability, metrics, logging, tracing, prometheus, grafana, elk, opentelemetry, slo]
difficulty: medium
estimated_time: 25min
---

## Overview

Observability is your ability to understand the internal state of a system from its external
outputs. The three pillars are metrics (aggregated numbers), logs (discrete events), and traces
(request flows across services). A system without observability is a black box — you can't debug
incidents you can't see, and you can't improve what you can't measure.

Metrics are numerical measurements sampled over time: request rate, error rate, latency
percentiles, CPU utilization, queue depth. Prometheus is the dominant open-source metrics system:
services expose a /metrics endpoint (or push via Pushgateway) and Prometheus scrapes on a
configurable interval. Metrics are stored as time-series and queried with PromQL. High cardinality
(too many unique label values) kills Prometheus performance — avoid using user IDs or request IDs
as label values.

Logs capture discrete events: a request received, an exception thrown, a state transition. The
ELK stack (Elasticsearch + Logstash + Kibana) or EFK (with Fluentd) centralizes logs from all
services. Structured logging (JSON with consistent fields: timestamp, level, service, trace_id,
message) is essential — unstructured text logs are hard to query and alert on. Always include a
trace ID in logs so you can correlate a log entry with its distributed trace.

Distributed tracing tracks a request as it flows through multiple services. Each service adds a
span (start time, duration, metadata) to the trace. Traces are assembled by a collector (Jaeger,
Zipkin, AWS X-Ray) and visualized as waterfall diagrams to pinpoint latency bottlenecks. Sampling
is necessary at high throughput — 100% trace collection is prohibitively expensive; 1–5% sampling
with head-based or tail-based strategies is typical.

## When to Use

- **Metrics + Grafana**: always. This is table stakes for any production system. Define SLIs
  (latency p99, error rate, availability) and set SLO thresholds.
- **Centralized logging**: aggregate logs from all services in one place for incident debugging
  and audit trails.
- **Distributed tracing**: microservices architectures where a single request touches 3+
  services — you need trace IDs to follow the request end-to-end.
- **Alerting**: alert on SLO burn rate (error budget consumption), not on raw metrics thresholds
  alone — reduces alert fatigue.

## Trade-offs & Gotchas

- High cardinality metrics (user_id, request_id as labels) explode Prometheus's memory and
  storage. Use traces for per-request data, metrics for aggregates.
- Log volume grows fast — set retention policies (30–90 days hot, archive to S3 for compliance).
  Index only fields you query on to control Elasticsearch cost.
- 100% trace sampling at high QPS is expensive. Use tail-based sampling (keep traces with errors
  or high latency; sample the rest) to maximize signal-to-noise.
- Alert fatigue is real: too many alerts = on-call engineers ignore them. Alert on symptoms
  (user-facing error rate) not causes (CPU spike on one instance).
- Correlation between pillars requires a shared trace_id flowing through logs, metrics labels,
  and trace spans — instrument at the framework/middleware level so it's automatic.
- OpenTelemetry (OTEL) is the CNCF-standard instrumentation API. Instrument once, export to any
  backend (Jaeger, Datadog, Honeycomb) — avoids vendor lock-in.

## Architecture Diagram

```
  Three Pillars:
  [Service A] ---> Metrics (counters, histograms) --> [Prometheus] --> [Grafana]
  [Service A] ---> Logs (JSON + trace_id)         --> [Fluent Bit]
  [Service A] ---> Traces (spans)                 --> [OTEL Collector]
                                                         |
                                              [Jaeger / Datadog / Honeycomb]

  SLO Alerting:
  SLI: error rate = errors / total_requests
  SLO: error rate < 0.1% over 30 days
  Error budget: 0.1% * 30days * 24h * 60min = ~43 minutes of downtime allowed

  Alert: burn rate > 14x (budget consumed 14x faster than allowed)
  --> Page on-call immediately

  Golden Signals (Google SRE):
  Latency    -- p50, p95, p99 response time
  Traffic    -- requests per second
  Errors     -- 4xx/5xx rate, exception rate
  Saturation -- CPU, memory, queue depth, connection pool utilization
```

## Key Interview Points

- Three pillars: metrics (what is happening), logs (what happened), traces (why it happened and
  where time was spent).
- Golden signals: latency, traffic, errors, saturation — alert on these before custom metrics.
- SLI/SLO/error budget: define measurable SLIs, set SLO targets, alert on error budget burn rate.
  This is the Google SRE model.
- Avoid high-cardinality metric labels — use traces for per-request details.
- Structured logging with trace_id correlation across all three pillars enables fast incident
  diagnosis.
- OpenTelemetry for vendor-neutral instrumentation — mention it to signal awareness of modern
  observability practices.
"##;
/// `resilience-patterns.md`.
pub const RESILIENCE_PATTERNS: &'static str = r##"---
title: "Resilience Patterns"
tags: [resilience, circuit-breaker, bulkhead, retry, backoff, timeouts, backpressure, idempotency]
difficulty: medium
estimated_time: 25min
---

## Overview

Resilience patterns prevent failures in one service from cascading into system-wide outages.
In a distributed system with 10 services each at 99.9% availability, the probability of all
being healthy simultaneously is 99.9%^10 = 99.0%. Without resilience patterns, a single slow
or failing dependency can exhaust thread pools, fill queues, and bring down healthy services.

The circuit breaker pattern wraps calls to a dependency and monitors for failures. When the failure
rate exceeds a threshold, the circuit "opens" — subsequent calls fail immediately without
attempting the dependency. After a configurable reset timeout, it enters "half-open" state,
allowing a probe request through. If that succeeds, the circuit closes; if it fails, it reopens.
This prevents cascading failures by fast-failing rather than letting threads pile up waiting for
a hanging dependency.

The bulkhead pattern isolates resources per dependency. Named after ship compartments that prevent
flooding from sinking the whole vessel. In practice: separate thread pools or connection pools
per downstream service. If Service B becomes slow and exhausts its dedicated thread pool, Service
A's thread pool (used for calling Service C) is unaffected. Without bulkheads, a slow dependency
monopolizes the shared thread pool and starves all other calls.

Retries are necessary for transient failures (network blips, temporary overload) but dangerous
without exponential backoff and jitter. Naive fixed-interval retries create thundering herds —
all clients retry simultaneously, amplifying load on an already-struggling service. Exponential
backoff doubles the wait time each retry (1s, 2s, 4s, 8s). Jitter adds randomness to spread
retries across the window, preventing synchronized retry storms.

## When to Use

- **Circuit breaker**: any synchronous call to an external service or dependency that could
  degrade or fail. Especially important for non-critical downstream dependencies.
- **Bulkhead**: when a service calls multiple dependencies — isolate each to prevent one slow
  dependency from starving others.
- **Retry + backoff**: transient network errors, rate limit responses (429), temporary service
  unavailability. Do NOT retry on 4xx client errors (except 429) — they will not succeed.
- **Timeout**: every network call, database query, and external API call — no exceptions.
- **Backpressure**: producers that can outpace consumers — bound your queues and reject or
  throttle when the queue is full.

## Trade-offs & Gotchas

- Circuit breaker threshold tuning: too sensitive = flapping on minor blips; too lenient = slow
  to react to real outages. Track error rates over a sliding window, not a fixed count.
- Retry amplification: with N services retrying to M services, failures can amplify traffic by
  N*max_retries. Combine retries with circuit breakers to limit amplification.
- Idempotency is required for safe retries: if a retry re-executes a payment or sends a duplicate
  notification, you have a bug. Use idempotency keys (UUID per logical operation, stored in DB)
  to deduplicate.
- Timeouts must be calibrated: too short = false failures during high load; too long = threads
  held for the full duration. Use p99 latency * 2 as a starting point, then tune.
- Deadline propagation: set a total budget for the request (e.g., 500ms) and propagate it to
  downstream calls so they don't waste time on a request whose parent already timed out.
- Backpressure implementations: TCP flow control, bounded blocking queues, HTTP 429 responses,
  gRPC flow control — all are forms of the same pattern.

## Architecture Diagram

```
  Circuit Breaker States:
  [CLOSED] -- failure rate < threshold --> normal operation
      |
  failure rate exceeds threshold (e.g., >50% in 10s window)
      |
  [OPEN] -- fast-fail all requests, return fallback/error immediately
      |
  reset timeout expires (e.g., 30s)
      |
  [HALF-OPEN] -- allow 1 probe request
      |            |
   success      failure
      |            |
  [CLOSED]     [OPEN]

  Bulkhead (Thread Pool Isolation):
  [Service A]
   |           |
  Pool-B     Pool-C     (separate pools per dependency)
  (10 threads) (10 threads)
   |           |
  [Svc B]    [Svc C]
  (slow)     (healthy)
  Pool-B     Pool-C unaffected -- Service A still serves Pool-C traffic

  Retry with Exponential Backoff + Jitter:
  attempt 1: immediate
  attempt 2: wait 1s + jitter(0-0.5s)
  attempt 3: wait 2s + jitter(0-1s)
  attempt 4: wait 4s + jitter(0-2s)
  give up after 3 retries or circuit opens

  Idempotency Key Flow:
  [Client] sends request with Idempotency-Key: uuid-123
  [Server] checks key in idempotency table
    found: return cached response (no re-execution)
    not found: execute, store result with key, return
```

## Key Interview Points

- Circuit breaker prevents cascading failures by fast-failing when a dependency is degraded.
  Mention the three states: closed, open, half-open.
- Bulkhead limits the blast radius of a slow dependency by isolating its resource allocation.
- Always use exponential backoff + jitter for retries — never fixed-interval, which causes
  thundering herd.
- Every network call needs a timeout — a hanging call without a timeout will hold a thread
  indefinitely and starve the thread pool.
- Retries require idempotency — design operations with idempotency keys to make retries safe.
- Backpressure: bound your queues and reject/throttle excess load rather than accepting
  unbounded work that causes unbounded latency.
"##;
/// `search-and-indexing.md`.
pub const SEARCH_AND_INDEXING: &'static str = r##"---
title: "Search & Indexing (Elasticsearch, Autocomplete, Geospatial)"
tags: [search, elasticsearch, inverted-index, geospatial, autocomplete, full-text-search, tf-idf, geohash]
difficulty: medium
estimated_time: 20min
---

## Overview

Search is one of the most common subsystems in large-scale products, yet it is
frequently under-designed in interviews. The core primitive is the inverted index:
a mapping from terms to the set of documents containing them. At write time,
documents are tokenized (split into terms), normalized (lowercased, stemmed,
stop-words removed), and each term is written into a posting list that records
which documents contain it, along with positional and frequency metadata.
At query time, the engine looks up each query term, intersects posting lists,
and ranks results by a relevance score such as TF-IDF or BM25.

Elasticsearch (built on Apache Lucene) is the dominant open-source engine.
It organizes data into indices, each split into a configurable number of
primary shards. Each shard is a self-contained Lucene index. Replicas are
copies of primaries that serve reads and provide fault tolerance. A cluster
of nodes distributes shards according to allocation rules; the coordinating
node fans out queries to all relevant shards, collects partial results, and
merges them. Mapping (the schema) defines field types: keyword (exact match),
text (analyzed full-text), date, geo_point, etc.

Geospatial search adds a spatial dimension: given a point and a radius (or
bounding box), find all entities within that region. Three common indexing
strategies are geohash (encoding lat/lon into a hierarchical string prefix),
quadtree (recursively subdividing the 2D plane into four quadrants), and
R-tree (bounding-rectangle tree, used in PostGIS and spatial databases).
Elasticsearch uses geohash internally for geo_point fields. Proximity queries
("find restaurants within 2 km") are bread-and-butter for ride-sharing, food
delivery, and local search interview problems.

Autocomplete (type-ahead) requires ultra-low latency (< 100 ms) on prefix
matches. A trie (prefix tree) is the classical data structure: each path from
root to leaf spells out a string, and each node can store a popularity score.
Elasticsearch models this with edge n-gram token filters or the completion
suggester, which builds a finite-state transducer (FST) stored in memory.
Ranking by popularity (query frequency, click-through rate) is crucial;
a pure lexicographic completion is almost never acceptable at FAANG scale.

## When to Use

Reach for a dedicated search index whenever your system needs:
- Relevance-ranked full-text search (product catalog, documents, posts)
- Fuzzy/typo-tolerant matching
- Faceted filtering (category + price range + rating simultaneously)
- Geospatial proximity queries at scale
- Sub-100 ms autocomplete on millions of terms

A relational DB with LIKE queries does not scale past millions of rows.
PostgreSQL full-text search (tsvector/tsquery) is viable for moderate scale
(< ~10M documents, single-digit QPS bursts) but lacks the operational tooling,
relevance tuning, and horizontal scalability of Elasticsearch.

Common interview scenarios where this appears:
- Design Google/Bing/DuckDuckGo (web search) -- inverted index at petabyte scale
- Design Uber/Lyft driver matching -- geospatial index for nearby drivers
- Design Google Maps / Yelp local search -- geohash proximity + ranking
- Design Twitter/Instagram search -- real-time inverted index on posts
- Design a search autocomplete system -- trie / completion suggester + popularity ranking
- Design an e-commerce product search -- Elasticsearch with facets and boosting

## Trade-offs & Gotchas

- Index vs. source of truth: the search index is a derived view of the primary
  DB. Always write to the DB first, then sync to the search index asynchronously
  (via CDC, a Kafka topic, or a periodic batch job). This means there is always
  a consistency lag (typically seconds to minutes); acknowledge this in interviews.

- Dual-write pitfall: writing to DB and search index in the same transaction is
  not possible across heterogeneous systems. Use an outbox pattern or CDC
  (e.g., Debezium reading Postgres WAL) to guarantee the sync eventually happens.

- Shard sizing: Elasticsearch recommends shards of 10-50 GB. Too-small shards
  waste memory on per-shard overhead; too-large shards slow down recovery and
  query merge. A common mistake is starting with too many shards (over-sharding).

- Mapping explosions: using dynamic mapping with high-cardinality nested fields
  (e.g., user-defined tags stored as object keys) can create thousands of fields
  in the mapping, causing memory and performance issues. Use explicit mappings.

- Relevance tuning is never "done": TF-IDF/BM25 gives a reasonable baseline, but
  production search always needs boosting (title > body > tags), field weighting,
  function scores (recency, popularity), and A/B testing. Mention this in interviews.

- Geohash precision trade-off: each additional geohash character roughly divides
  the cell area by 32. Geohash length 5 covers ~5 km x 5 km; length 7 covers
  ~150 m x 150 m. Querying a cell requires also querying the 8 surrounding cells
  to avoid edge-of-cell boundary misses.

- Hot-warm-cold tiering: search clusters often have hot nodes (fast SSDs, high
  RAM, recent data), warm nodes (cheaper HDDs, older data), and cold/frozen nodes
  (object storage, infrequently queried). Index Lifecycle Management (ILM) in
  Elasticsearch automates rolling indices through these tiers.

- Autocomplete ranking drift: if you rank purely by global query frequency, new
  or niche terms never surface. Add recency decay and personalization signals
  where appropriate.

- Replication lag on primary failure: when a primary shard fails and a replica
  is promoted, in-flight indexing operations may be lost. Elasticsearch's
  sequence numbers and global checkpoints bound the data loss window.

## Architecture Diagram

Full-text search with async sync from primary DB:

```
  Writes:
  --------
  [Client]
     |
     v
  [App Server]
     |
     |-- (1) Write to primary DB (Postgres / MySQL)
     |
     v
  [Primary DB]
     |
     | CDC (Change Data Capture via Debezium / binlog)
     v
  [Kafka Topic: db-changes]
     |
     v
  [Indexer Service]   <-- consumes events, transforms docs
     |
     v
  [Elasticsearch Cluster]
     |
     +-- [Primary Shard 0]  <--> [Replica Shard 0]
     +-- [Primary Shard 1]  <--> [Replica Shard 1]
     +-- [Primary Shard 2]  <--> [Replica Shard 2]

  Reads:
  ------
  [Client]
     |
     v
  [App Server / Search API]
     |
     v
  [Coordinating Node]  (any ES node can coordinate)
     |
     | fan-out query to all shards
     v
  [Shard 0]  [Shard 1]  [Shard 2]
     |            |           |
     +------------+-----------+
                  |
         merge + rank (BM25)
                  |
                  v
            [Top-K Results]


Inverted Index (per shard, simplified):

  Term          | Posting List (doc_id: freq)
  --------------|-------------------------------
  "apple"       | [doc3:2, doc7:1, doc12:3]
  "iphone"      | [doc3:1, doc7:4]
  "smartphone"  | [doc1:1, doc7:2, doc99:1]

  Query "apple iphone":
    intersect([doc3,doc7,doc12], [doc3,doc7]) -> [doc3, doc7]
    rank by BM25(tf, idf, field_length_norm) -> doc7 > doc3


Geospatial Indexing (geohash):

  lat/lon  -->  geohash string (e.g., "9q8yy")
                   |
                   | hash prefix hierarchy
                   v
  Level 1: "9"       (~5000 km x 5000 km)
  Level 2: "9q"      (~1250 km x 625 km)
  Level 3: "9q8"     (~156 km x 156 km)
  Level 4: "9q8y"    (~39 km x 20 km)
  Level 5: "9q8yy"   (~4.9 km x 4.9 km)  <-- typical driver proximity cell

  Proximity query: compute geohash of query point, fetch all 9 cells
  (target + 8 neighbors) at chosen precision, then apply exact distance filter.


Autocomplete Trie (prefix tree):

  Query prefix: "sta"

           root
           /|\
          s  ...
          |
          t
          |
          a -----> "star"    (score: 9500)
          |  \---> "stack"   (score: 8200)
          |  \---> "stanford" (score: 4100)
          r
          ...

  Each node stores: children map + top-K completions sorted by score.
  Lookup: O(prefix_length). Top-K is pre-computed at insert time.


Hot-Warm-Cold Node Architecture:

  [Hot Nodes]  (NVMe SSD, 64+ GB RAM)
       |  index actively written to; recent data (last 7 days)
       | ILM rollover when index hits size/age threshold
       v
  [Warm Nodes]  (HDD or SATA SSD, 32 GB RAM)
       |  read-only; last 30-90 days; force-merged to 1 segment
       v
  [Cold Nodes / Frozen]  (searchable snapshots on S3/GCS)
       |  rarely queried; on-demand load from object storage
       v
  [Snapshot Repository]  (S3 / GCS)
       -- full backups; also source for cold/frozen tier
```

## Key Interview Points

- Lead with the inverted index: term -> posting list is the foundational data
  structure. Mention tokenization (splitting), normalization (lowercase, stemming),
  and why raw LIKE queries on a DB do not scale.

- Separate the write path from the read path. Primary DB is the source of truth;
  Elasticsearch is a derived index. Sync asynchronously via CDC + Kafka. Explicitly
  acknowledge the consistency lag and state it is acceptable for most search use cases.

- Elasticsearch sharding: each shard is an independent Lucene index. Primary shards
  cannot be increased after index creation without reindexing; plan shard count upfront
  based on expected data volume and 10-50 GB per shard guidance.

- Relevance: BM25 is the default in Elasticsearch (since v5). It improves on TF-IDF
  by normalizing for document length. Mention field-level boosting (_boost, query-time
  boost) and function_score for business signals (recency, popularity, inventory).

- Geospatial: name the three strategies (geohash, quadtree, R-tree) and explain the
  boundary problem with geohash. Always query the 8 neighboring cells, then apply an
  exact Haversine/Euclidean distance post-filter. At Uber scale, an in-memory quadtree
  per city updated in real time is preferable to ES for driver location.

- Autocomplete: trie for conceptual explanation; edge n-grams or the ES completion
  suggester for implementation. Rank by popularity score, not alphabetically. For
  personalization, blend global popularity with user-specific recency signals.

- Operational concerns worth naming at senior level: ILM / hot-warm-cold tiering for
  cost management, shard sizing mistakes (over-sharding), mapping explosions from
  dynamic fields, and index aliases for zero-downtime reindexing.

- Zero-downtime reindex pattern: write to alias pointing at index v1; create index v2
  with new mapping; reindex v1 -> v2; atomically swap alias to v2. Clients are unaware
  of the swap.
"##;
/// `security.md`.
pub const SECURITY: &'static str = r##"---
title: "Cloud Security"
tags: [security, iam, encryption, kms, secrets, waf, oauth2, jwt, zero-trust]
difficulty: medium
estimated_time: 25min
---

## Overview

Cloud security spans identity, data protection, network controls, and application-layer defenses.
In system design interviews, security is often an afterthought — mentioning it proactively and
concretely signals seniority. The core principle is defense in depth: multiple independent layers
so that no single failure exposes the system.

Identity and Access Management (IAM) controls who (or what) can do what to which resources.
The principle of least privilege means each user, service, or process gets only the permissions
it needs and nothing more. In AWS, prefer IAM roles over long-lived access keys — roles use
temporary credentials that rotate automatically. EC2 instance profiles and ECS task roles attach
roles directly to compute resources, eliminating the need to manage credentials in code.

Encryption protects data from unauthorized access. Encryption at rest uses AES-256 applied to
storage (S3 buckets, EBS volumes, RDS instances). Key management services (AWS KMS, GCP Cloud KMS)
handle key storage, rotation, and access control. Envelope encryption wraps a data encryption key
(DEK) with a master key (KEK) — only the DEK is stored alongside the data; the KEK lives in KMS.
Encryption in transit uses TLS 1.2 or 1.3 for all HTTP traffic. mTLS (mutual TLS) adds client
certificate verification for service-to-service communication in zero-trust environments.

OAuth2 and JWT handle delegated authorization and stateless authentication. OAuth2 defines the
flow for obtaining tokens (authorization code, client credentials). JWT encodes claims as a signed
(and optionally encrypted) JSON payload — the signature lets any service verify the token without
calling a central auth server. Always validate the signature, expiry (exp), issuer (iss), and
audience (aud) claims.

## When to Use

- **IAM roles/instance profiles**: any compute resource accessing cloud services — never hardcode
  access keys.
- **KMS envelope encryption**: sensitive data in S3, RDS, DynamoDB — automatic key rotation
  every year, auditable via CloudTrail.
- **Secrets Manager**: database passwords, API keys, OAuth client secrets — with automatic rotation
  and fine-grained access control. Use over Parameter Store when rotation is needed.
- **WAF**: public-facing APIs and web apps — SQL injection, XSS protection, rate limiting at
  the edge (before traffic reaches your servers).
- **JWT**: stateless service-to-service auth, mobile/SPA token-based auth where you don't want
  server-side session storage.
- **mTLS**: zero-trust service mesh environments (Istio, AWS App Mesh) where every service
  authenticates every other service.

## Trade-offs & Gotchas

- JWT tokens cannot be invalidated before expiry — keep access token TTL short (15min). Use
  refresh tokens (longer TTL, stored server-side) to issue new access tokens. A token blacklist
  defeats the stateless benefit; prefer short TTLs instead.
- KMS has API rate limits — at high request rates, use data key caching to avoid per-operation
  KMS calls.
- Overly broad IAM policies (Action: "*", Resource: "*") are the #1 cloud security mistake.
  Audit with IAM Access Analyzer.
- Secrets in environment variables are visible to anyone with exec access to the container. Use
  Secrets Manager injection at runtime via the AWS SDK or sidecar.
- WAF rules can introduce false positives — test in count mode before switching to block mode.
- TLS certificate expiry causes outages — use ACM (auto-renewing) or cert-manager (k8s) rather
  than manually managed certs.

## Architecture Diagram

```
  IAM Role Chain:
  [EC2 / Lambda]
       |
  [Instance Profile / Task Role]  (temporary creds, auto-rotated)
       |
  [IAM Policy] --> allow: s3:GetObject, kms:Decrypt
                   deny:  s3:DeleteObject (explicit deny wins)

  Envelope Encryption:
  [Plaintext Data]
       |
  [DEK (AES-256)] --> encrypt --> [Ciphertext]
       |
  [KMS: encrypt DEK with KEK] --> [Encrypted DEK stored with data]

  OAuth2 + JWT Flow:
  [Client] --> [Auth Server] --> [Access Token (JWT, 15min TTL)]
                                 [Refresh Token (opaque, 30 days)]
  [Client] --> [API] with Bearer JWT
  [API] --> validate JWT signature + exp + aud locally (no network call)

  Defense in Depth:
  Internet
    --> [WAF] (block SQLi, XSS, bad IPs)
    --> [ALB] (TLS termination)
    --> [App] (JWT validation, AuthZ)
    --> [KMS] (decrypt data at rest)
    --> [VPC] (private subnet, SG)
```

## Key Interview Points

- Least privilege: roles with minimum required permissions, no wildcard policies in production.
- No hardcoded credentials — use IAM roles, instance profiles, and Secrets Manager.
- Short-lived JWT access tokens (15min) + refresh tokens prevent token abuse without centralized
  revocation.
- Encrypt at rest (KMS) AND in transit (TLS 1.2+) — mention both when discussing data storage.
- WAF at the edge protects against OWASP Top 10 before traffic reaches your application.
- Zero trust: verify identity at every hop with mTLS — don't trust the private network implicitly.
"##;
/// `storage.md`.
pub const STORAGE: &'static str = r##"---
title: "Cloud Storage"
tags: [object-storage, block-storage, s3, storage-tiers, data-lake]
difficulty: easy
estimated_time: 20min
---

## Overview

Cloud storage breaks into three fundamental models: object, block, and file. Choosing the wrong
one is a common design mistake — each maps to a different access pattern and consistency model.

Object storage (S3, GCS, Azure Blob) stores data as flat objects identified by a key within a
bucket. There is no directory hierarchy (prefixes simulate one). Objects are accessed over HTTP,
are immutable once written (must overwrite entirely), and scale to virtually unlimited capacity.
S3 achieved strong read-after-write consistency for all operations in December 2020 — no more
eventual consistency caveats for new objects or overwrites.

Block storage (EBS, Persistent Disk) presents as a raw disk attached to a single VM instance.
The OS formats it with a filesystem. Latency is sub-millisecond, making it the right choice for
database storage, boot volumes, and any workload requiring random I/O. Block volumes are bound
to one AZ and typically one instance (multi-attach exists but is complex).

File storage (EFS, Filestore) provides a POSIX-compliant shared filesystem mountable by multiple
instances simultaneously. It is the choice for shared configuration, CMS asset storage, or any
workload where multiple servers need concurrent read/write access to the same directory tree.

## When to Use

- **Object storage**: media files, backups, logs, static website assets, ML training data,
  data lake raw zone. Default choice when no low-latency random I/O is needed.
- **Block storage**: primary storage for relational databases, Kafka brokers, anything the OS
  treats as a disk drive.
- **File storage**: shared application config, home directories, CMS uploads, HPC scratch space.
- **Data lake**: raw + processed analytics data at scale — combine object storage with a metadata
  catalog (Glue, Hive Metastore) for schema-on-read querying via Spark/Athena.

## Trade-offs & Gotchas

- Object storage has higher per-operation latency (5–100ms) vs block storage (<1ms). Never use
  S3 as a database.
- EBS volumes are AZ-scoped — a failure or migration requires a snapshot + restore to another AZ.
- EFS is more expensive than EBS per GB and higher latency; only use it when sharing is required.
- Data lake query costs scale with data scanned — partition by date/region and use columnar formats
  (Parquet, ORC) to minimize scanned bytes.
- Storage tiers (S3 Standard → Infrequent Access → Glacier) reduce cost for cold data but add
  retrieval latency and fees. Use lifecycle policies to automate tiering.
- Large object uploads: use multipart upload for objects > 100MB to improve throughput and
  resilience to network interruptions.

## Architecture Diagram

```
  Write Path (user upload):
  [Client] --> [API Server] --> [Object Storage (S3)]
                                      |
                               [Event Notification]
                                      |
                              [Processing Lambda]
                                      |
                         [Processed Bucket (S3)]

  Data Lake Layers:
  [Raw Zone / S3]          <- ingestion, immutable
       |
  [Curated Zone / S3]      <- cleaned, Parquet format
       |
  [Serving Zone / S3]      <- aggregated, query-optimized
       |
  [Query Engine]           <- Athena / Spark / BigQuery

  Storage by Latency:
  Block (EBS)  <1ms    -- databases, boot volumes
  File  (EFS)  ~1ms    -- shared filesystems
  Object (S3)  5-100ms -- everything else
```

## Key Interview Points

- S3 has strong consistency (since 2020) — safe to read immediately after write.
- Use object storage for anything you'd put in a CDN or serve over HTTP — it's cheap and
  infinitely scalable.
- Block storage is for databases; file storage is for shared mounts; object is for everything else.
- Columnar formats (Parquet) + partitioning dramatically reduce data lake query costs.
- Storage tiers: Standard → Standard-IA (infrequent access) → Glacier (archive). Automate
  with lifecycle rules, not manual management.
- Mention versioning on S3 for audit trails and accidental-deletion protection.
"##;
/// The files of this module's content directory.
pub open spec fn files_spec() -> Seq<ContentFileView> {
    seq![
        ContentFileView { path: "cloud/caching.md"@, contents: CACHING@ },
        ContentFileView { path: "cloud/compute.md"@, contents: COMPUTE@ },
        ContentFileView { path: "cloud/databases.md"@, contents: DATABASES@ },
        ContentFileView { path: "cloud/load-balancing.md"@, contents: LOAD_BALANCING@ },
        ContentFileView { path: "cloud/messaging.md"@, contents: MESSAGING@ },
        ContentFileView { path: "cloud/multi-region.md"@, contents: MULTI_REGION@ },
        ContentFileView { path: "cloud/networking.md"@, contents: NETWORKING@ },
        ContentFileView { path: "cloud/observability.md"@, contents: OBSERVABILITY@ },
        ContentFileView { path: "cloud/resilience-patterns.md"@, contents: RESILIENCE_PATTERNS@ },
        ContentFileView { path: "cloud/search-and-indexing.md"@, contents: SEARCH_AND_INDEXING@ },
        ContentFileView { path: "cloud/security.md"@, contents: SECURITY@ },
        ContentFileView { path: "cloud/storage.md"@, contents: STORAGE@ },
    ]
}

/// The files of this module's content directory.
pub fn files() -> (files: Vec<ContentFile>)
    ensures
        files@.map_values(|f: ContentFile| f@) == files_spec(),
{
    let mut files: Vec<ContentFile> = Vec::new();
    files.push(ContentFile { path: "cloud/caching.md", contents: CACHING });
    files.push(ContentFile { path: "cloud/compute.md", contents: COMPUTE });
    files.push(ContentFile { path: "cloud/databases.md", contents: DATABASES });
    files.push(ContentFile { path: "cloud/load-balancing.md", contents: LOAD_BALANCING });
    files.push(ContentFile { path: "cloud/messaging.md", contents: MESSAGING });
    files.push(ContentFile { path: "cloud/multi-region.md", contents: MULTI_REGION });
    files.push(ContentFile { path: "cloud/networking.md", contents: NETWORKING });
    files.push(ContentFile { path: "cloud/observability.md", contents: OBSERVABILITY });
    files.push(ContentFile { path: "cloud/resilience-patterns.md", contents: RESILIENCE_PATTERNS });
    files.push(ContentFile { path: "cloud/search-and-indexing.md", contents: SEARCH_AND_INDEXING });
    files.push(ContentFile { path: "cloud/security.md", contents: SECURITY });
    files.push(ContentFile { path: "cloud/storage.md", contents: STORAGE });
    assert(files@.map_values(|f: ContentFile| f@) =~= files_spec());
    files
}

/// Every file of this module's content directory lies under `cloud/`.
pub proof fn lemma_files_under_directory()
    ensures
        files_spec().len() == 12,
        forall|k: int|
            0 <= k < files_spec().len() ==> "cloud/"@.is_prefix_of(#[trigger] files_spec()[k].path),
{
    reveal_strlit("cloud/");
    reveal_strlit("cloud/caching.md");
    reveal_strlit("cloud/compute.md");
    reveal_strlit("cloud/databases.md");
    reveal_strlit("cloud/load-balancing.md");
    reveal_strlit("cloud/messaging.md");
    reveal_strlit("cloud/multi-region.md");
    reveal_strlit("cloud/networking.md");
    reveal_strlit("cloud/observability.md");
    reveal_strlit("cloud/resilience-patterns.md");
    reveal_strlit("cloud/search-and-indexing.md");
    reveal_strlit("cloud/security.md");
    reveal_strlit("cloud/storage.md");
    assert("cloud/caching.md"@.subrange(0, 6) =~= "cloud/"@);
    assert("cloud/compute.md"@.subrange(0, 6) =~= "cloud/"@);
    assert("cloud/databases.md"@.subrange(0, 6) =~= "cloud/"@);
    assert("cloud/load-balancing.md"@.subrange(0, 6) =~= "cloud/"@);
    assert("cloud/messaging.md"@.subrange(0, 6) =~= "cloud/"@);
    assert("cloud/multi-region.md"@.subrange(0, 6) =~= "cloud/"@);
    assert("cloud/networking.md"@.subrange(0, 6) =~= "cloud/"@);
    assert("cloud/observability.md"@.subrange(0, 6) =~= "cloud/"@);
    assert("cloud/resilience-patterns.md"@.subrange(0, 6) =~= "cloud/"@);
    assert("cloud/search-and-indexing.md"@.subrange(0, 6) =~= "cloud/"@);
    assert("cloud/security.md"@.subrange(0, 6) =~= "cloud/"@);
    assert("cloud/storage.md"@.subrange(0, 6) =~= "cloud/"@);
}

} // verus!
